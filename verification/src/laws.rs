use crate::grid::{in_range, Grid};
use crate::state::EngineState;
use crate::types::{Cell, GameStatus, Player};
use vstd::prelude::*;

verus! {

/// On a board without a line, a mark decides the game by the lines through
/// its own cell alone: looking at those gives the same status as looking at
/// the whole board, and never gives both players a line.
pub proof fn lemma_local_evaluation(g: Grid, row: int, col: int, player: Player)
    requires
        g.wf(),
        in_range(row, col),
        g.at(row, col) is Empty,
        !g.has_line(Player::X),
        !g.has_line(Player::O),
    ensures
        g.marked(row, col, player).evaluate(row, col) == g.marked(row, col, player).outcome(),
        g.marked(row, col, player).legal(),
{
}

/// A mark that completes its row, its column or a diagonal through its
/// cell wins the game for the player who made it.
pub proof fn lemma_completed_line_wins(g: Grid, row: int, col: int, player: Player)
    requires
        g.wf(),
        in_range(row, col),
        ({
            let after = g.marked(row, col, player);
            ||| after.row_complete(row, player)
            ||| after.col_complete(col, player)
            ||| (row == col && after.diagonal_complete(player))
            ||| (row + col == 2 && after.anti_diagonal_complete(player))
        }),
    ensures
        g.marked(row, col, player).evaluate(row, col) == GameStatus::Won(player),
{
}

/// A game starts in a well-formed state.
pub proof fn lemma_initial_wf()
    ensures
        EngineState::initial().wf(),
        !EngineState::initial().status.terminal(),
{
    assert(Grid::empty().at(0, 0) is Empty);
}

/// An accepted move leads from a well-formed state to a well-formed state.
pub proof fn lemma_move_preserves_wf(s: EngineState, row: int, col: int, player: Player)
    requires
        s.wf(),
        s.accepts(row, col),
    ensures
        s.after_move(row, col, player).wf(),
{
    lemma_local_evaluation(s.board, row, col, player);
}

/// Every state that play reaches from the start is well formed.
pub proof fn lemma_reachable_wf(s: EngineState, moves: nat)
    requires
        s.reachable_in(moves),
    ensures
        s.wf(),
    decreases moves,
{
    if moves == 0 {
        lemma_initial_wf();
    } else {
        let (prev, row, col, player) = choose|
            prev: EngineState,
            row: int,
            col: int,
            player: Player,
        |
            prev.reachable_in((moves - 1) as nat) && prev.accepts(row, col) && s
                == #[trigger] prev.after_move(row, col, player);
        lemma_reachable_wf(prev, (moves - 1) as nat);
        lemma_move_preserves_wf(prev, row, col, player);
    }
}

/// Of a win for `X`, a win for `O` and a draw, at most one holds of a
/// well-formed game, and the status tells which.
pub proof fn lemma_outcomes_exclusive(s: EngineState)
    requires
        s.wf(),
    ensures
        !(s.board.has_line(Player::X) && s.board.has_line(Player::O)),
        !(s.board.has_line(Player::X) && s.board.drawn()),
        !(s.board.has_line(Player::O) && s.board.drawn()),
        s.status == GameStatus::Won(Player::X) <==> s.board.has_line(Player::X),
        s.status == GameStatus::Won(Player::O) <==> s.board.has_line(Player::O),
        s.status is Draw <==> s.board.drawn(),
        s.status is InProgress <==> !s.board.has_line(Player::X) && !s.board.has_line(Player::O)
            && !s.board.is_full(),
{
}

/// In every state that play reaches from the start, at most one of a win
/// for `X`, a win for `O` and a draw holds: never two wins, never a win
/// and a draw.
pub proof fn lemma_reachable_outcomes_exclusive(s: EngineState, moves: nat)
    requires
        s.reachable_in(moves),
    ensures
        !(s.board.has_line(Player::X) && s.board.has_line(Player::O)),
        !(s.board.has_line(Player::X) && s.board.drawn()),
        !(s.board.has_line(Player::O) && s.board.drawn()),
        !(s.status is Won && s.board.drawn()),
        s.status is Won ==> !s.board.has_line(s.status->0.other()),
{
    lemma_reachable_wf(s, moves);
    lemma_outcomes_exclusive(s);
}

/// What an accepted move of `player` leads to: a win for `player` exactly
/// if the mark completes a line, else a draw exactly if it fills the
/// board, else a game in progress; never a win for the other side.
pub proof fn lemma_move_outcome(s: EngineState, row: int, col: int, player: Player)
    requires
        s.wf(),
        s.accepts(row, col),
    ensures
        ({
            let next = s.after_move(row, col, player);
            &&& next.status == GameStatus::Won(player) <==> s.board.would_win(row, col, player)
            &&& next.status != GameStatus::Won(player.other())
            &&& next.status is Draw <==> !s.board.would_win(row, col, player)
                && next.board.is_full()
            &&& next.status is InProgress ==> next.to_move == player.other()
            &&& next.status.terminal() ==> next.to_move == s.to_move
        }),
{
}

/// An accepted move writes one mark into an empty cell and leaves every
/// other cell as it was: no mark is ever taken back or overwritten.
pub proof fn lemma_move_keeps_marks(
    s: EngineState,
    row: int,
    col: int,
    player: Player,
    r: int,
    c: int,
)
    requires
        s.wf(),
        s.accepts(row, col),
        in_range(r, c),
    ensures
        s.after_move(row, col, player).board.at(r, c) == if r == row && c == col {
            Cell::Marked(player)
        } else {
            s.board.at(r, c)
        },
        s.after_move(row, col, player).board.empty_count() + 1 == s.board.empty_count(),
{
    s.board.lemma_mark_fills_one(row, col, player, 9);
}

/// No move is accepted on a marked cell, outside the board or once the
/// game is over.
pub proof fn lemma_rejected_moves(s: EngineState, row: int, col: int)
    ensures
        s.status.terminal() ==> !s.accepts(row, col),
        !in_range(row, col) ==> !s.accepts(row, col),
        s.board.at(row, col) is Marked ==> !s.accepts(row, col),
{
}

/// While a well-formed game is in progress the opponent's policy allows
/// some cell, and every cell it allows is one on which a move is accepted.
pub proof fn lemma_opponent_can_move(s: EngineState)
    requires
        s.wf(),
        s.status is InProgress,
    ensures
        exists|row: int, col: int| #[trigger] s.board.opponent_may_play(row, col),
        forall|row: int, col: int| #[trigger]
            s.board.opponent_may_play(row, col) ==> s.accepts(row, col),
{
    let g = s.board;
    if g.can_win(Player::O) {
        g.lemma_first_win_exists(Player::O);
        let (row, col) = choose|row: int, col: int| #[trigger] g.first_win(row, col, Player::O);
        assert(g.opponent_may_play(row, col));
    } else if g.can_win(Player::X) {
        g.lemma_first_win_exists(Player::X);
        let (row, col) = choose|row: int, col: int| #[trigger] g.first_win(row, col, Player::X);
        assert(g.opponent_may_play(row, col));
    } else {
        let (row, col) = choose|row: int, col: int|
            in_range(row, col) && #[trigger] g.at(row, col) is Empty;
        assert(g.opponent_may_play(row, col));
    }
}

/// Winning outranks blocking: where `O` can complete a line, the cell
/// that the policy allows completes one, and the move wins the game.
pub proof fn lemma_opponent_takes_win(s: EngineState, row: int, col: int)
    requires
        s.wf(),
        s.status is InProgress,
        s.board.can_win(Player::O),
        s.board.opponent_may_play(row, col),
    ensures
        s.board.would_win(row, col, Player::O),
        s.after_move(row, col, Player::O).status == GameStatus::Won(Player::O),
{
}

/// Where `O` cannot complete a line but `X` could, the policy allows only
/// a cell on which `X` would have won, and `X` can no longer win there.
pub proof fn lemma_opponent_blocks(s: EngineState, row: int, col: int)
    requires
        s.wf(),
        s.status is InProgress,
        !s.board.can_win(Player::O),
        s.board.can_win(Player::X),
        s.board.opponent_may_play(row, col),
    ensures
        s.board.would_win(row, col, Player::X),
        !s.after_move(row, col, Player::O).board.would_win(row, col, Player::X),
        s.after_move(row, col, Player::O).status != GameStatus::Won(Player::X),
{
}

/// The message of a win names the winner by its letter.
pub proof fn lemma_message_names_winner(player: Player)
    ensures
        GameStatus::Won(player).message_text() == Some(
            "Player "@ + seq![player.letter()] + " won!"@,
        ),
{
    reveal_strlit("Player X won!");
    reveal_strlit("Player O won!");
    reveal_strlit("Player ");
    reveal_strlit(" won!");
    let text = "Player "@ + seq![player.letter()] + " won!"@;
    match player {
        Player::X => assert(text =~= "Player X won!"@),
        Player::O => assert(text =~= "Player O won!"@),
    }
}

/// Numbering the empty cells in row-major order pairs the numbers below
/// the count with the empty cells, one to one: each empty cell has its
/// number, and two cells with the same number are the same cell.
pub proof fn lemma_empty_cells_numbered(g: Grid, row: int, col: int, r: int, c: int, k: nat)
    requires
        g.wf(),
    ensures
        in_range(row, col) && g.at(row, col) is Empty ==> g.empties_before(3 * row + col)
            < g.empty_count() && g.is_nth_empty(
            row,
            col,
            g.empties_before(3 * row + col),
        ),
        g.is_nth_empty(row, col, k) && g.is_nth_empty(r, c, k) ==> row == r && col == c,
{
    if in_range(row, col) && g.at(row, col) is Empty {
        g.lemma_empties_monotonic(3 * row + col + 1, 9);
    }
    if g.is_nth_empty(row, col, k) && g.is_nth_empty(r, c, k) {
        if 3 * row + col < 3 * r + c {
            g.lemma_empties_monotonic(3 * row + col + 1, 3 * r + c);
        } else if 3 * r + c < 3 * row + col {
            g.lemma_empties_monotonic(3 * r + c + 1, 3 * row + col);
        }
    }
}

} // verus!
