use tictactoe::board::Board;
use tictactoe::engine::GameEngine;
use tictactoe::types::{Cell, GameStatus, Player};

const X: Player = Player::X;
const O: Player = Player::O;

/// Builds a board from three rows of `X`, `O` and `.`.
fn position(rows: [&str; 3]) -> Board {
    let mut board = Board::new();
    for (row, text) in rows.iter().enumerate() {
        assert_eq!(text.len(), 3);
        for (col, mark) in text.chars().enumerate() {
            match mark {
                'X' => assert!(board.mark(row, col, X)),
                'O' => assert!(board.mark(row, col, O)),
                '.' => {}
                other => panic!("unexpected mark {other}"),
            }
        }
    }
    board
}

fn engine_at(rows: [&str; 3], to_move: Player) -> GameEngine {
    GameEngine::from_position(position(rows), to_move).expect("a legal position")
}

fn count(engine: &GameEngine, cell: Cell) -> usize {
    let mut n = 0;
    for row in 0..3 {
        for col in 0..3 {
            if engine.cell(row, col) == Some(cell) {
                n += 1;
            }
        }
    }
    n
}

fn assert_fresh(engine: &GameEngine) {
    for row in 0..3 {
        for col in 0..3 {
            assert_eq!(engine.cell(row, col), Some(Cell::Empty));
        }
    }
    assert_eq!(engine.status(), GameStatus::InProgress);
    assert_eq!(engine.to_move(), X);
    assert_eq!(engine.status_message(), None);
    assert_eq!(*engine, GameEngine::new());
}

#[test]
fn new_game_is_empty_and_in_progress() {
    let engine = GameEngine::new();
    assert_fresh(&engine);
    assert_eq!(engine.board(), Board::new());
}

#[test]
fn reset_after_a_win_starts_over() {
    let mut engine = engine_at(["X..", "XO.", "..O"], X);
    assert_eq!(engine.apply_human_move(2, 0), Some(GameStatus::Won(X)));
    engine.reset();
    assert_fresh(&engine);
}

#[test]
fn reset_after_a_draw_starts_over() {
    let mut engine = engine_at(["XOX", "XOO", "OXX"], O);
    assert_eq!(engine.status(), GameStatus::Draw);
    engine.reset();
    assert_fresh(&engine);
}

#[test]
fn reset_in_the_middle_of_a_game_starts_over() {
    let mut engine = GameEngine::new();
    assert_eq!(engine.apply_human_move(1, 1), Some(GameStatus::InProgress));
    assert_eq!(engine.to_move(), O);
    engine.reset();
    assert_fresh(&engine);
    engine.reset();
    assert_fresh(&engine);
}

#[test]
fn human_move_marks_x_and_passes_the_turn() {
    let mut engine = GameEngine::new();
    assert_eq!(engine.apply_human_move(2, 1), Some(GameStatus::InProgress));
    assert_eq!(engine.cell(2, 1), Some(Cell::Marked(X)));
    assert_eq!(count(&engine, Cell::Marked(X)), 1);
    assert_eq!(count(&engine, Cell::Empty), 8);
    assert_eq!(engine.status(), GameStatus::InProgress);
    assert_eq!(engine.to_move(), O);
}

#[test]
fn human_move_marks_x_whoever_is_to_move() {
    let mut engine = engine_at(["X..", ".O.", "..."], O);
    assert_eq!(engine.apply_human_move(0, 1), Some(GameStatus::InProgress));
    assert_eq!(engine.cell(0, 1), Some(Cell::Marked(X)));
    assert_eq!(engine.to_move(), O);
}

#[test]
fn human_move_on_a_marked_cell_is_rejected() {
    let mut engine = engine_at(["X..", ".O.", "..."], X);
    let before = engine;
    assert_eq!(engine.apply_human_move(0, 0), None);
    assert_eq!(engine, before);
    assert_eq!(engine.apply_human_move(1, 1), None);
    assert_eq!(engine, before);
    assert_eq!(engine.cell(1, 1), Some(Cell::Marked(O)));
    assert_eq!(engine.to_move(), X);
}

#[test]
fn human_move_outside_the_board_is_rejected() {
    let mut engine = engine_at(["X..", ".O.", "..."], X);
    let before = engine;
    for (row, col) in [(3, 0), (0, 3), (3, 3), (usize::MAX, 1), (1, usize::MAX), (9, 9)] {
        assert_eq!(engine.apply_human_move(row, col), None);
        assert_eq!(engine, before);
    }
}

#[test]
fn human_move_after_a_win_is_rejected() {
    let mut engine = engine_at(["X..", "XO.", "..O"], X);
    assert_eq!(engine.apply_human_move(2, 0), Some(GameStatus::Won(X)));
    let before = engine;
    for row in 0..3 {
        for col in 0..3 {
            assert_eq!(engine.apply_human_move(row, col), None);
            assert_eq!(engine, before);
        }
    }
    assert_eq!(engine.status(), GameStatus::Won(X));
}

#[test]
fn human_move_after_a_draw_is_rejected() {
    let mut engine = engine_at(["XOX", "XOO", "OX."], X);
    assert_eq!(engine.apply_human_move(2, 2), Some(GameStatus::Draw));
    let before = engine;
    assert_eq!(engine.apply_human_move(0, 0), None);
    assert_eq!(engine.apply_human_move(3, 3), None);
    assert_eq!(engine, before);
}

#[test]
fn opponent_move_after_the_game_has_ended_is_rejected() {
    let mut won = engine_at(["XXX", "OO.", "..."], O);
    assert_eq!(won.status(), GameStatus::Won(X));
    let before = won;
    assert_eq!(won.apply_opponent_move(), None);
    assert_eq!(won, before);

    let mut lost = engine_at(["XX.", "OOO", "X.."], X);
    assert_eq!(lost.status(), GameStatus::Won(O));
    let before = lost;
    assert_eq!(lost.apply_opponent_move(), None);
    assert_eq!(lost, before);

    let mut drawn = engine_at(["XOX", "XOO", "OXX"], O);
    let before = drawn;
    assert_eq!(drawn.apply_opponent_move(), None);
    assert_eq!(drawn, before);
}

#[test]
fn turn_after_the_game_has_ended_is_rejected() {
    let mut engine = engine_at(["XXX", "OO.", "..."], X);
    let before = engine;
    assert_eq!(engine.play_turn(1, 2), None);
    assert_eq!(engine.play_turn(2, 2), None);
    assert_eq!(engine, before);
}

#[test]
fn first_move_in_a_corner_leaves_the_opponent_to_chance() {
    let mut engine = GameEngine::new();
    assert_eq!(engine.apply_human_move(0, 0), Some(GameStatus::InProgress));
    assert_eq!(engine.board().find_winning_cell(O), None);
    assert_eq!(engine.board().find_winning_cell(X), None);
    let (row, col) = engine.select_opponent_move();
    assert!(row < 3 && col < 3);
    assert_eq!(engine.cell(row, col), Some(Cell::Empty));
    assert_eq!(engine.apply_opponent_move(), Some(GameStatus::InProgress));
    assert_eq!(engine.status(), GameStatus::InProgress);
    assert_eq!(engine.cell(0, 0), Some(Cell::Marked(X)));
    assert_eq!(count(&engine, Cell::Marked(X)), 1);
    assert_eq!(count(&engine, Cell::Marked(O)), 1);
    assert_eq!(count(&engine, Cell::Empty), 7);
    assert_eq!(engine.to_move(), X);
}

#[test]
fn completing_column_0_wins_for_x() {
    let mut engine = engine_at(["X..", "XO.", "..O"], X);
    assert_eq!(engine.status(), GameStatus::InProgress);
    assert_eq!(engine.apply_human_move(2, 0), Some(GameStatus::Won(X)));
    assert_eq!(engine.status(), GameStatus::Won(X));
    assert_eq!(engine.cell(2, 0), Some(Cell::Marked(X)));
    assert_eq!(engine.status_message(), Some("Player X won!".to_string()));
    assert_eq!(engine.to_move(), X);
}

#[test]
fn filling_the_board_without_a_line_is_a_draw() {
    let mut engine = engine_at(["XOX", "XOO", "OX."], X);
    assert_eq!(engine.status(), GameStatus::InProgress);
    assert_eq!(engine.apply_human_move(2, 2), Some(GameStatus::Draw));
    assert_eq!(engine.status(), GameStatus::Draw);
    assert_eq!(count(&engine, Cell::Empty), 0);
    assert_eq!(engine.status_message(), Some("Draw!".to_string()));
}

#[test]
fn opponent_completes_its_top_row() {
    let engine = engine_at(["OO.", "X..", ".X."], O);
    assert_eq!(engine.select_opponent_move(), (0, 2));
    let mut engine = engine;
    assert_eq!(engine.apply_opponent_move(), Some(GameStatus::Won(O)));
    assert_eq!(engine.cell(0, 2), Some(Cell::Marked(O)));
    assert_eq!(engine.status(), GameStatus::Won(O));
    assert_eq!(engine.status_message(), Some("Player O won!".to_string()));
    assert_eq!(engine.to_move(), O);
}

#[test]
fn opponent_prefers_winning_to_blocking() {
    let engine = engine_at(["XX.", "OO.", "X.."], O);
    assert_eq!(engine.board().find_winning_cell(X), Some((0, 2)));
    assert_eq!(engine.board().find_winning_cell(O), Some((1, 2)));
    for _ in 0..50 {
        assert_eq!(engine.select_opponent_move(), (1, 2));
    }
    let mut engine = engine;
    assert_eq!(engine.apply_opponent_move(), Some(GameStatus::Won(O)));
    assert_eq!(engine.cell(1, 2), Some(Cell::Marked(O)));
    assert_eq!(engine.cell(0, 2), Some(Cell::Empty));
}

#[test]
fn opponent_blocks_where_it_cannot_win() {
    let engine = engine_at(["XX.", "O..", "..."], O);
    assert_eq!(engine.board().find_winning_cell(O), None);
    for _ in 0..50 {
        assert_eq!(engine.select_opponent_move(), (0, 2));
    }
    let mut engine = engine;
    assert_eq!(engine.apply_opponent_move(), Some(GameStatus::InProgress));
    assert_eq!(engine.cell(0, 2), Some(Cell::Marked(O)));
    assert_eq!(engine.board().find_winning_cell(X), None);
    assert_eq!(engine.to_move(), X);
}

#[test]
fn opponent_blocks_the_first_of_two_threats() {
    let engine = engine_at(["X.O", ".X.", "X.O"], O);
    assert_eq!(engine.board().find_winning_cell(O), Some((1, 2)));
    let engine = engine_at(["X..", "XX.", "O.O"], O);
    assert_eq!(engine.select_opponent_move(), (2, 1));
    let engine = engine_at(["X.X", ".O.", "X.."], O);
    assert_eq!(engine.board().find_winning_cell(O), None);
    assert_eq!(engine.select_opponent_move(), (0, 1));
}

#[test]
fn opponent_drawing_at_random_picks_an_empty_cell() {
    let engine = engine_at(["X..", "...", "..."], O);
    for _ in 0..500 {
        let (row, col) = engine.select_opponent_move();
        assert!(row < 3 && col < 3);
        assert_eq!(engine.cell(row, col), Some(Cell::Empty));
    }
    let engine = engine_at(["XOX", "XOO", "OX."], O);
    for _ in 0..50 {
        assert_eq!(engine.select_opponent_move(), (2, 2));
    }
}

#[test]
fn opponent_drawing_at_random_reaches_every_empty_cell() {
    let engine = engine_at(["X..", "...", "..."], O);
    let mut seen = [[false; 3]; 3];
    for _ in 0..4000 {
        let (row, col) = engine.select_opponent_move();
        seen[row][col] = true;
    }
    for row in 0..3 {
        for col in 0..3 {
            assert_eq!(seen[row][col], (row, col) != (0, 0));
        }
    }
}

#[test]
fn select_opponent_move_leaves_the_engine_alone() {
    let engine = engine_at(["XX.", "O..", "..."], O);
    let before = engine;
    let _ = engine.select_opponent_move();
    assert_eq!(engine, before);
}

#[test]
fn play_turn_answers_the_human_move() {
    let mut engine = GameEngine::new();
    assert_eq!(engine.play_turn(1, 1), Some(GameStatus::InProgress));
    assert_eq!(engine.cell(1, 1), Some(Cell::Marked(X)));
    assert_eq!(count(&engine, Cell::Marked(X)), 1);
    assert_eq!(count(&engine, Cell::Marked(O)), 1);
    assert_eq!(engine.to_move(), X);
}

#[test]
fn play_turn_stops_when_the_human_wins() {
    let mut engine = engine_at(["X..", "XO.", "..O"], X);
    assert_eq!(engine.play_turn(2, 0), Some(GameStatus::Won(X)));
    assert_eq!(count(&engine, Cell::Marked(X)), 3);
    assert_eq!(count(&engine, Cell::Marked(O)), 2);
}

#[test]
fn play_turn_stops_when_the_human_fills_the_board() {
    let mut engine = engine_at(["XOX", "XOO", "OX."], X);
    assert_eq!(engine.play_turn(2, 2), Some(GameStatus::Draw));
    assert_eq!(count(&engine, Cell::Marked(O)), 4);
}

#[test]
fn play_turn_lets_the_opponent_win() {
    let mut engine = engine_at(["OO.", "X..", ".X."], X);
    assert_eq!(engine.play_turn(2, 2), Some(GameStatus::Won(O)));
    assert_eq!(engine.cell(2, 2), Some(Cell::Marked(X)));
    assert_eq!(engine.cell(0, 2), Some(Cell::Marked(O)));
    assert_eq!(engine.status_message(), Some("Player O won!".to_string()));
}

#[test]
fn play_turn_lets_the_opponent_block() {
    let mut engine = engine_at(["X..", ".O.", "..."], X);
    assert_eq!(engine.play_turn(0, 1), Some(GameStatus::InProgress));
    assert_eq!(engine.cell(0, 2), Some(Cell::Marked(O)));
    assert_eq!(count(&engine, Cell::Marked(O)), 2);
}

#[test]
fn play_turn_on_a_marked_cell_is_rejected() {
    let mut engine = engine_at(["X..", ".O.", "..."], X);
    let before = engine;
    assert_eq!(engine.play_turn(1, 1), None);
    assert_eq!(engine.play_turn(0, 0), None);
    assert_eq!(engine.play_turn(0, 3), None);
    assert_eq!(engine, before);
}

#[test]
fn click_after_the_game_has_ended_starts_over() {
    let mut engine = engine_at(["XXX", "OO.", "..."], X);
    engine.handle_click(Some((2, 2)));
    assert_fresh(&engine);

    let mut engine = engine_at(["XOX", "XOO", "OXX"], X);
    engine.handle_click(None);
    assert_fresh(&engine);

    let mut engine = engine_at(["XX.", "OOO", "X.."], X);
    engine.handle_click(Some((7, 7)));
    assert_fresh(&engine);
}

#[test]
fn click_beside_the_board_does_nothing() {
    let mut engine = engine_at(["X..", ".O.", "..."], X);
    let before = engine;
    engine.handle_click(None);
    assert_eq!(engine, before);
    engine.handle_click(Some((3, 1)));
    assert_eq!(engine, before);
}

#[test]
fn click_on_a_marked_cell_does_nothing() {
    let mut engine = engine_at(["X..", ".O.", "..."], X);
    let before = engine;
    engine.handle_click(Some((0, 0)));
    engine.handle_click(Some((1, 1)));
    assert_eq!(engine, before);
}

#[test]
fn click_on_an_empty_cell_plays_a_turn() {
    let mut engine = GameEngine::new();
    engine.handle_click(Some((2, 2)));
    assert_eq!(engine.cell(2, 2), Some(Cell::Marked(X)));
    assert_eq!(count(&engine, Cell::Marked(X)), 1);
    assert_eq!(count(&engine, Cell::Marked(O)), 1);
    assert_eq!(engine.status(), GameStatus::InProgress);
}

#[test]
fn from_position_reads_the_status_off_the_board() {
    let cases = [
        (["...", "...", "..."], GameStatus::InProgress),
        (["XO.", ".X.", "O.."], GameStatus::InProgress),
        (["XO.", "XO.", "X.."], GameStatus::Won(X)),
        (["XO.", "XO.", ".OX"], GameStatus::Won(O)),
        (["XOX", "XOO", "OXX"], GameStatus::Draw),
        (["XOX", "OXO", "OXX"], GameStatus::Won(X)),
    ];
    for (rows, status) in cases {
        for to_move in [X, O] {
            let engine = GameEngine::from_position(position(rows), to_move).unwrap();
            assert_eq!(engine.status(), status);
            assert_eq!(engine.to_move(), to_move);
            assert_eq!(engine.board(), position(rows));
        }
    }
}

#[test]
fn from_position_refuses_a_line_for_each_player() {
    assert_eq!(GameEngine::from_position(position(["XXX", "OOO", "..."]), X), None);
    assert_eq!(GameEngine::from_position(position(["XO.", "XO.", "XO."]), O), None);
    assert_eq!(GameEngine::from_position(position(["XXX", "...", "OOO"]), X), None);
    assert!(GameEngine::from_position(position(["XXX", "OO.", "..."]), X).is_some());
    assert!(GameEngine::from_position(position(["XXX", "XOO", "XOO"]), X).is_some());
}

#[test]
fn engine_evaluate_reads_the_lines_through_a_cell() {
    let engine = engine_at(["XXX", "OO.", "..."], X);
    assert_eq!(engine.evaluate(0, 0), GameStatus::Won(X));
    assert_eq!(engine.evaluate(1, 0), GameStatus::InProgress);
    assert_eq!(engine.evaluate(2, 2), GameStatus::InProgress);
    let engine = engine_at(["XOX", "XOO", "OXX"], X);
    assert_eq!(engine.evaluate(1, 1), GameStatus::Draw);
}

#[test]
fn status_message_names_the_result() {
    assert_eq!(engine_at(["X..", ".O.", "..."], X).status_message(), None);
    assert_eq!(
        engine_at(["XXX", "OO.", "..."], X).status_message(),
        Some("Player X won!".to_string())
    );
    assert_eq!(
        engine_at(["XX.", "OOO", "X.."], X).status_message(),
        Some("Player O won!".to_string())
    );
    assert_eq!(
        engine_at(["XOX", "XOO", "OXX"], X).status_message(),
        Some("Draw!".to_string())
    );
}

#[test]
fn status_messages_and_terminal_statuses() {
    assert_eq!(GameStatus::InProgress.message(), None);
    assert_eq!(GameStatus::Won(X).message(), Some("Player X won!".to_string()));
    assert_eq!(GameStatus::Won(O).message(), Some("Player O won!".to_string()));
    assert_eq!(GameStatus::Draw.message(), Some("Draw!".to_string()));
    assert!(!GameStatus::InProgress.is_terminal());
    assert!(GameStatus::Won(X).is_terminal());
    assert!(GameStatus::Won(O).is_terminal());
    assert!(GameStatus::Draw.is_terminal());
}

#[test]
fn symbol_of_each_player() {
    assert_eq!(X.symbol(), 'X');
    assert_eq!(O.symbol(), 'O');
    for player in [X, O] {
        let message = GameStatus::Won(player).message().unwrap();
        assert_eq!(message, format!("Player {} won!", player.symbol()));
    }
}

#[test]
fn opponent_of_each_player() {
    assert_eq!(X.opponent(), O);
    assert_eq!(O.opponent(), X);
    assert_eq!(X.opponent().opponent(), X);
}

#[test]
fn status_always_agrees_with_the_board() {
    // Plays many games to the end, the human taking the first empty cell
    // after a cell that moves on from game to game.
    for start in 0..200usize {
        let mut engine = GameEngine::new();
        let mut turns = 0;
        while !engine.status().is_terminal() {
            let empty = engine.board().count_empty();
            let (row, col) = engine.board().nth_empty((start + turns * 7) % empty);
            let marks = 9 - empty;
            let status = engine.play_turn(row, col).expect("an empty cell is accepted");
            assert_eq!(status, engine.status());
            assert_eq!(engine.status(), engine.board().outcome());
            assert_eq!(engine.cell(row, col), Some(Cell::Marked(X)));
            let now = 9 - engine.board().count_empty();
            assert!(now == marks + 2 || (now == marks + 1 && status.is_terminal()));
            let wins_x = engine.board().has_line(X);
            let wins_o = engine.board().has_line(O);
            let draw = engine.board().is_full() && !wins_x && !wins_o;
            let holding = [wins_x, wins_o, draw].iter().filter(|&&holds| holds).count();
            assert_eq!(holding == 1, status.is_terminal());
            assert!(holding <= 1);
            assert_eq!(status == GameStatus::Won(X), wins_x);
            assert_eq!(status == GameStatus::Won(O), wins_o);
            assert_eq!(status == GameStatus::Draw, draw);
            if !status.is_terminal() {
                assert_eq!(engine.to_move(), X);
            }
            turns += 1;
            assert!(turns <= 5);
        }
        let over = engine;
        assert_eq!(engine.play_turn(0, 0), None);
        assert_eq!(engine.apply_opponent_move(), None);
        assert_eq!(engine, over);
        assert!(engine.status_message().is_some());
    }
}

#[test]
fn marks_are_never_taken_back_during_a_game() {
    for start in 0..50usize {
        let mut engine = GameEngine::new();
        let mut turns = 0;
        while !engine.status().is_terminal() {
            let before = engine.board();
            let empty = before.count_empty();
            let (row, col) = before.nth_empty((start + turns) % empty);
            engine.play_turn(row, col);
            for r in 0..3 {
                for c in 0..3 {
                    if before.get(r, c) != Some(Cell::Empty) {
                        assert_eq!(engine.cell(r, c), before.get(r, c));
                    }
                }
            }
            turns += 1;
        }
    }
}

#[test]
fn cell_outside_the_board_is_none() {
    let engine = engine_at(["XO.", "OX.", "..."], X);
    assert_eq!(engine.cell(0, 0), Some(Cell::Marked(X)));
    assert_eq!(engine.cell(1, 0), Some(Cell::Marked(O)));
    assert_eq!(engine.cell(2, 2), Some(Cell::Empty));
    assert_eq!(engine.cell(0, 3), None);
    assert_eq!(engine.cell(3, 0), None);
    assert_eq!(engine.evaluate(0, 3), GameStatus::InProgress);
}
