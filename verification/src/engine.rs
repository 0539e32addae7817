use crate::board::Board;
use crate::grid::in_range;
use crate::laws::lemma_local_evaluation;
use crate::random::random_below;
use crate::state::EngineState;
use crate::types::{Cell, GameStatus, Player};
use vstd::prelude::*;

verus! {

/// A game of tic-tac-toe between the human, who plays `X`, and the
/// opponent, who plays `O`.
///
/// The engine owns the board, the status and the side to move. Its status
/// always agrees with its board.
#[derive(Clone, Copy, Debug, PartialEq, Eq)]
pub struct GameEngine {
    board: Board,
    status: GameStatus,
    to_move: Player,
}

impl View for GameEngine {
    type V = EngineState;

    closed spec fn view(&self) -> EngineState {
        EngineState { board: self.board@, status: self.status, to_move: self.to_move }
    }
}

impl GameEngine {
    /// Holds of every engine: the status agrees with the board, on which
    /// at most one player holds a line.
    #[verifier::type_invariant]
    pub open spec fn wf(self) -> bool {
        self@.wf()
    }

    /// Starts a game: an empty board, a game in progress, `X` to move.
    pub fn new() -> (res: GameEngine)
        ensures
            res@ == EngineState::initial(),
            res@.wf(),
    {
        GameEngine { board: Board::new(), status: GameStatus::InProgress, to_move: Player::X }
    }

    /// Takes up a game at a given position. The status is read off the
    /// board. A board on which both players hold a line is refused.
    pub fn from_position(board: Board, to_move: Player) -> (res: Option<GameEngine>)
        ensures
            res is Some == board@.legal(),
            res matches Some(engine) ==> engine@ == (EngineState {
                board: board@,
                status: board@.outcome(),
                to_move,
            }) && engine@.wf(),
    {
        proof {
            board.lemma_view_wf();
        }
        if board.has_line(Player::X) && board.has_line(Player::O) {
            None
        } else {
            Some(GameEngine { board, status: board.outcome(), to_move })
        }
    }

    /// Starts over, whatever the state was: every cell empty, a game in
    /// progress, `X` to move.
    pub fn reset(&mut self)
        ensures
            final(self)@ == EngineState::initial(),
            final(self)@.wf(),
    {
        *self = GameEngine::new();
    }

    /// The current status.
    pub fn status(&self) -> (res: GameStatus)
        ensures
            res == self@.status,
    {
        self.status
    }

    /// The side to move.
    pub fn to_move(&self) -> (res: Player)
        ensures
            res == self@.to_move,
    {
        self.to_move
    }

    /// The current board.
    pub fn board(&self) -> (res: Board)
        ensures
            res@ == self@.board,
    {
        self.board
    }

    /// The cell at `(row, col)`; `None` outside the board.
    pub fn cell(&self, row: usize, col: usize) -> (res: Option<Cell>)
        ensures
            res == self@.board.get(row as int, col as int),
    {
        self.board.get(row, col)
    }

    /// Evaluates the game from the cell at `(row, col)`, as after a mark
    /// there: a win for the owner of a complete line through the cell, else
    /// a draw on a full board, else a game in progress. A cell that is
    /// empty or outside the board wins for nobody. The engine itself is not
    /// changed.
    pub fn evaluate(&self, row: usize, col: usize) -> (res: GameStatus)
        ensures
            res == self@.board.evaluate(row as int, col as int),
    {
        self.board.evaluate(row, col)
    }

    /// The message to show once the game is over, `None` before.
    pub fn status_message(&self) -> (res: Option<String>)
        ensures
            res is Some == self@.status.terminal(),
            res matches Some(text) ==> self@.status.message_text() == Some(text@),
    {
        self.status.message()
    }

    /// Marks `(row, col)` for `player` if the move is accepted, and brings
    /// status and turn up to date.
    fn apply_move(&mut self, row: usize, col: usize, player: Player) -> (res: Option<GameStatus>)
        ensures
            final(self)@.wf(),
            old(self)@.accepts(row as int, col as int) ==> final(self)@ == old(self)@.after_move(
                row as int,
                col as int,
                player,
            ) && res == Some(final(self)@.status),
            !old(self)@.accepts(row as int, col as int) ==> *final(self) == *old(self) && res
                is None,
    {
        proof {
            use_type_invariant(&*self);
        }
        if self.status.is_terminal() {
            return None;
        }
        let mut board = self.board;
        if !board.mark(row, col, player) {
            return None;
        }
        let status = board.evaluate(row, col);
        let to_move = if status.is_terminal() {
            self.to_move
        } else {
            player.opponent()
        };
        proof {
            lemma_local_evaluation(self.board@, row as int, col as int, player);
        }
        *self = GameEngine { board, status, to_move };
        Some(status)
    }

    /// The human's move: marks `(row, col)` with `X`, whoever is to move,
    /// and returns the status that results. A move outside the board, onto
    /// a marked cell or after the game has ended is rejected: nothing
    /// changes and `None` is returned.
    pub fn apply_human_move(&mut self, row: usize, col: usize) -> (res: Option<GameStatus>)
        ensures
            final(self)@.wf(),
            res is Some == old(self)@.accepts(row as int, col as int),
            res matches Some(status) ==> final(self)@ == old(self)@.after_move(
                row as int,
                col as int,
                Player::X,
            ) && status == final(self)@.status,
            res is None ==> *final(self) == *old(self),
    {
        self.apply_move(row, col, Player::X)
    }

    /// Chooses the opponent's move: the first cell, in row-major order,
    /// that wins for `O`; where there is none, the first cell that would
    /// win for `X`; where there is none either, an empty cell drawn at
    /// random.
    pub fn select_opponent_move(&self) -> (res: (usize, usize))
        requires
            self@.status is InProgress,
        ensures
            self@.board.can_win(Player::O) ==> self@.board.first_win(
                res.0 as int,
                res.1 as int,
                Player::O,
            ),
            !self@.board.can_win(Player::O) && self@.board.can_win(Player::X)
                ==> self@.board.first_win(res.0 as int, res.1 as int, Player::X),
            in_range(res.0 as int, res.1 as int),
            self@.board.at(res.0 as int, res.1 as int) is Empty,
            self@.board.opponent_may_play(res.0 as int, res.1 as int),
    {
        proof {
            use_type_invariant(self);
            self.board@.lemma_empty_count_positive();
        }
        match self.board.find_winning_cell(Player::O) {
            Some(cell) => cell,
            None => match self.board.find_winning_cell(Player::X) {
                Some(cell) => cell,
                None => {
                    let pick = random_below(self.board.count_empty());
                    self.board.nth_empty(pick)
                },
            },
        }
    }

    /// The opponent's move: marks the cell that `select_opponent_move`
    /// chooses with `O` and returns the status that results. After the game
    /// has ended the move is rejected: nothing changes and `None` is
    /// returned.
    pub fn apply_opponent_move(&mut self) -> (res: Option<GameStatus>)
        ensures
            final(self)@.wf(),
            res is Some == (old(self)@.status is InProgress),
            res matches Some(status) ==> old(self)@.opponent_leads_to(final(self)@) && status
                == final(self)@.status,
            res is None ==> *final(self) == *old(self),
    {
        proof {
            use_type_invariant(&*self);
        }
        if self.status.is_terminal() {
            return None;
        }
        let (row, col) = self.select_opponent_move();
        self.apply_move(row, col, Player::O)
    }

    /// One full turn: the human's move at `(row, col)` and, if the game
    /// goes on, the opponent's answer. Returns the status at the end of the
    /// turn, or `None` where the human's move is rejected and nothing
    /// changes.
    pub fn play_turn(&mut self, row: usize, col: usize) -> (res: Option<GameStatus>)
        ensures
            final(self)@.wf(),
            res is Some == old(self)@.accepts(row as int, col as int),
            old(self)@.turn_leads_to(row as int, col as int, final(self)@),
            res matches Some(status) ==> status == final(self)@.status,
            res is None ==> *final(self) == *old(self),
    {
        match self.apply_human_move(row, col) {
            None => None,
            Some(GameStatus::InProgress) => self.apply_opponent_move(),
            Some(status) => Some(status),
        }
    }

    /// Reacts to a click. A click after the game has ended starts a new
    /// game, wherever it lands. During a game a click on a cell plays a
    /// turn there, and a click beside the board does nothing.
    pub fn handle_click(&mut self, target: Option<(usize, usize)>)
        ensures
            final(self)@.wf(),
            old(self)@.status.terminal() ==> final(self)@ == EngineState::initial(),
            !old(self)@.status.terminal() ==> match target {
                Some((row, col)) => {
                    &&& old(self)@.turn_leads_to(row as int, col as int, final(self)@)
                    &&& !old(self)@.accepts(row as int, col as int) ==> *final(self) == *old(
                        self,
                    )
                },
                None => *final(self) == *old(self),
            },
    {
        proof {
            use_type_invariant(&*self);
        }
        if self.status.is_terminal() {
            self.reset();
        } else {
            match target {
                Some((row, col)) => {
                    self.play_turn(row, col);
                },
                None => {},
            }
        }
    }
}

} // verus!
