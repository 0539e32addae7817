use crate::grid::{in_range, Grid};
use crate::types::{GameStatus, Player};
use vstd::prelude::*;

verus! {

/// A game as a mathematical value: the board, the status and the side to
/// move.
#[verifier::ext_equal]
pub struct EngineState {
    pub board: Grid,
    pub status: GameStatus,
    pub to_move: Player,
}

impl EngineState {
    /// The state in which every game starts.
    pub open spec fn initial() -> EngineState {
        EngineState { board: Grid::empty(), status: GameStatus::InProgress, to_move: Player::X }
    }

    /// The status agrees with the board, on which at most one player
    /// holds a line.
    pub open spec fn wf(self) -> bool {
        &&& self.board.legal()
        &&& self.status == self.board.outcome()
    }

    /// A mark at `(row, col)` is accepted: the cell exists and is empty,
    /// and the game is not over.
    pub open spec fn accepts(self, row: int, col: int) -> bool {
        &&& in_range(row, col)
        &&& self.status is InProgress
        &&& self.board.at(row, col) is Empty
    }

    /// The state after `player` has marked `(row, col)`. The turn passes
    /// to the other side unless the mark ends the game.
    pub open spec fn after_move(self, row: int, col: int, player: Player) -> EngineState {
        let board = self.board.marked(row, col, player);
        let status = board.evaluate(row, col);
        EngineState {
            board,
            status,
            to_move: if status is InProgress {
                player.other()
            } else {
                self.to_move
            },
        }
    }

    /// The state arises from the initial one by `moves` accepted moves.
    pub open spec fn reachable_in(self, moves: nat) -> bool
        decreases moves,
    {
        if moves == 0 {
            self == EngineState::initial()
        } else {
            exists|prev: EngineState, row: int, col: int, player: Player|
                prev.reachable_in((moves - 1) as nat) && prev.accepts(row, col) && self
                    == #[trigger] prev.after_move(row, col, player)
        }
    }

    /// `next` is a state that a move of the opponent may lead to.
    pub open spec fn opponent_leads_to(self, next: EngineState) -> bool {
        exists|row: int, col: int|
            self.board.opponent_may_play(row, col) && next == #[trigger] self.after_move(
                row,
                col,
                Player::O,
            )
    }

    /// `next` is a state in which a turn may end that the human opens at
    /// `(row, col)`: the state itself where the mark is not accepted, the
    /// state after the mark where that ends the game, and else a state
    /// that the opponent's answer leads to.
    pub open spec fn turn_leads_to(self, row: int, col: int, next: EngineState) -> bool {
        if !self.accepts(row, col) {
            next == self
        } else if self.after_move(row, col, Player::X).status.terminal() {
            next == self.after_move(row, col, Player::X)
        } else {
            self.after_move(row, col, Player::X).opponent_leads_to(next)
        }
    }
}

} // verus!
