use crate::types::{Cell, GameStatus, Player};
use vstd::prelude::*;

verus! {

/// The board as a mathematical value: its nine cells in row-major order,
/// so that the cell at `(row, col)` stands at index `3 * row + col`.
#[verifier::ext_equal]
pub struct Grid {
    pub cells: Seq<Cell>,
}

/// Coordinates that name a cell of the board.
pub open spec fn in_range(row: int, col: int) -> bool {
    0 <= row < 3 && 0 <= col < 3
}

/// Row-major order on coordinates: the order in which the board is scanned.
pub open spec fn precedes(row1: int, col1: int, row2: int, col2: int) -> bool {
    row1 < row2 || (row1 == row2 && col1 < col2)
}

impl Grid {
    /// The board has its nine cells.
    pub open spec fn wf(self) -> bool {
        self.cells.len() == 9
    }

    /// The board on which nobody has played.
    pub open spec fn empty() -> Grid {
        Grid { cells: Seq::new(9, |i: int| Cell::Empty) }
    }

    /// The cell at `(row, col)`.
    pub open spec fn at(self, row: int, col: int) -> Cell {
        self.cells[3 * row + col]
    }

    /// The board with `player`'s mark written at `(row, col)`.
    pub open spec fn marked(self, row: int, col: int, player: Player) -> Grid {
        Grid { cells: self.cells.update(3 * row + col, Cell::Marked(player)) }
    }

    /// The cell at `(row, col)` holds `player`'s mark.
    pub open spec fn owns(self, row: int, col: int, player: Player) -> bool {
        self.at(row, col) == Cell::Marked(player)
    }

    /// `player` holds all of row `row`.
    pub open spec fn row_complete(self, row: int, player: Player) -> bool {
        self.owns(row, 0, player) && self.owns(row, 1, player) && self.owns(row, 2, player)
    }

    /// `player` holds all of column `col`.
    pub open spec fn col_complete(self, col: int, player: Player) -> bool {
        self.owns(0, col, player) && self.owns(1, col, player) && self.owns(2, col, player)
    }

    /// `player` holds the diagonal from the top left to the bottom right.
    pub open spec fn diagonal_complete(self, player: Player) -> bool {
        self.owns(0, 0, player) && self.owns(1, 1, player) && self.owns(2, 2, player)
    }

    /// `player` holds the diagonal from the top right to the bottom left.
    pub open spec fn anti_diagonal_complete(self, player: Player) -> bool {
        self.owns(0, 2, player) && self.owns(1, 1, player) && self.owns(2, 0, player)
    }

    /// Some line through the cell `(row, col)` holds three marks of
    /// `player`. No line runs through coordinates outside the board.
    pub open spec fn line_through(self, row: int, col: int, player: Player) -> bool {
        &&& in_range(row, col)
        &&& {
            ||| self.row_complete(row, player)
            ||| self.col_complete(col, player)
            ||| (row == col && self.diagonal_complete(player))
            ||| (row + col == 2 && self.anti_diagonal_complete(player))
        }
    }

    /// Some line of the board holds three marks of `player`.
    pub open spec fn has_line(self, player: Player) -> bool {
        ||| self.row_complete(0, player)
        ||| self.row_complete(1, player)
        ||| self.row_complete(2, player)
        ||| self.col_complete(0, player)
        ||| self.col_complete(1, player)
        ||| self.col_complete(2, player)
        ||| self.diagonal_complete(player)
        ||| self.anti_diagonal_complete(player)
    }

    /// No cell is empty.
    pub open spec fn is_full(self) -> bool {
        forall|row: int, col: int| in_range(row, col) ==> !(#[trigger] self.at(row, col) is Empty)
    }

    /// The cell at `(row, col)`, if the board has one there.
    pub open spec fn get(self, row: int, col: int) -> Option<Cell> {
        if in_range(row, col) {
            Some(self.at(row, col))
        } else {
            None
        }
    }

    /// The player whose mark at `(row, col)` lies on a complete line. An
    /// empty cell has no winner, nor have coordinates outside the board.
    pub open spec fn winner_at(self, row: int, col: int) -> Option<Player> {
        match self.get(row, col) {
            Some(Cell::Marked(player)) if self.line_through(row, col, player) => Some(player),
            _ => None,
        }
    }

    /// The status as seen from the cell that was marked last: only the
    /// lines through that cell are looked at, and the board is tested for
    /// fullness only where none of them is complete.
    pub open spec fn evaluate(self, row: int, col: int) -> GameStatus {
        match self.winner_at(row, col) {
            Some(player) => GameStatus::Won(player),
            None => if self.is_full() {
                GameStatus::Draw
            } else {
                GameStatus::InProgress
            },
        }
    }

    /// The status as seen from the whole board, whichever cell was marked
    /// last.
    pub open spec fn outcome(self) -> GameStatus {
        if self.has_line(Player::X) {
            GameStatus::Won(Player::X)
        } else if self.has_line(Player::O) {
            GameStatus::Won(Player::O)
        } else if self.is_full() {
            GameStatus::Draw
        } else {
            GameStatus::InProgress
        }
    }

    /// The board is full and nobody holds a line.
    pub open spec fn drawn(self) -> bool {
        self.is_full() && !self.has_line(Player::X) && !self.has_line(Player::O)
    }

    /// A board of nine cells on which at most one player holds a line. No
    /// other board arises in play.
    pub open spec fn legal(self) -> bool {
        self.wf() && !(self.has_line(Player::X) && self.has_line(Player::O))
    }

    /// `player` would complete a line by marking the empty cell `(row, col)`.
    pub open spec fn would_win(self, row: int, col: int, player: Player) -> bool {
        &&& in_range(row, col)
        &&& self.at(row, col) is Empty
        &&& self.marked(row, col, player).line_through(row, col, player)
    }

    /// Some empty cell would complete a line for `player`.
    pub open spec fn can_win(self, player: Player) -> bool {
        exists|row: int, col: int| #[trigger] self.would_win(row, col, player)
    }

    /// `(row, col)` is the first cell, in row-major order, that would
    /// complete a line for `player`.
    pub open spec fn first_win(self, row: int, col: int, player: Player) -> bool {
        &&& self.would_win(row, col, player)
        &&& forall|r: int, c: int|
            precedes(r, c, row, col) ==> !#[trigger] self.would_win(r, c, player)
    }

    /// The cells that the opponent's policy allows: the first cell that
    /// wins for `O` where there is one, else the first cell that would win
    /// for `X`, else any empty cell.
    pub open spec fn opponent_may_play(self, row: int, col: int) -> bool {
        if self.can_win(Player::O) {
            self.first_win(row, col, Player::O)
        } else if self.can_win(Player::X) {
            self.first_win(row, col, Player::X)
        } else {
            in_range(row, col) && self.at(row, col) is Empty
        }
    }

    /// The number of empty cells among the first `n` in row-major order.
    pub open spec fn empties_before(self, n: int) -> nat
        decreases n,
    {
        if n <= 0 {
            0
        } else if self.cells[n - 1] is Empty {
            self.empties_before(n - 1) + 1
        } else {
            self.empties_before(n - 1)
        }
    }

    /// The number of empty cells.
    pub open spec fn empty_count(self) -> nat {
        self.empties_before(9)
    }

    /// `(row, col)` is the empty cell with exactly `k` empty cells before it
    /// in row-major order.
    pub open spec fn is_nth_empty(self, row: int, col: int, k: nat) -> bool {
        &&& in_range(row, col)
        &&& self.at(row, col) is Empty
        &&& self.empties_before(3 * row + col) == k
    }

    /// A board with nine cells has an empty one exactly if it is not full.
    pub proof fn lemma_empty_count_positive(self)
        requires
            self.wf(),
        ensures
            self.empty_count() > 0 <==> !self.is_full(),
    {
        if !self.is_full() {
            let (row, col) = choose|row: int, col: int|
                in_range(row, col) && #[trigger] self.at(row, col) is Empty;
            self.lemma_empties_monotonic(3 * row + col + 1, 9);
        } else {
            self.lemma_full_prefix(9);
        }
    }

    /// On a full board no prefix holds an empty cell.
    proof fn lemma_full_prefix(self, n: int)
        requires
            self.is_full(),
            n <= 9,
        ensures
            self.empties_before(n) == 0,
        decreases n,
    {
        if n > 0 {
            self.lemma_full_prefix(n - 1);
            assert(!(self.at((n - 1) / 3, (n - 1) % 3) is Empty));
        }
    }

    /// Where `player` can win at all, some cell is the first on which it
    /// can.
    pub proof fn lemma_first_win_exists(self, player: Player)
        requires
            self.can_win(player),
        ensures
            exists|row: int, col: int| #[trigger] self.first_win(row, col, player),
    {
        self.lemma_first_win_from(player, 0, 0);
    }

    /// The search for the first winning cell, taken up at `(row, col)`.
    proof fn lemma_first_win_from(self, player: Player, row: int, col: int)
        requires
            self.can_win(player),
            0 <= row <= 3,
            0 <= col < 3,
            forall|r: int, c: int|
                precedes(r, c, row, col) ==> !#[trigger] self.would_win(r, c, player),
        ensures
            exists|r: int, c: int| #[trigger] self.first_win(r, c, player),
        decreases 9 - (3 * row + col),
    {
        if row == 3 {
            let (r, c) = choose|r: int, c: int| #[trigger] self.would_win(r, c, player);
            assert(precedes(r, c, row, col));
        } else if self.would_win(row, col, player) {
            assert(self.first_win(row, col, player));
        } else if col < 2 {
            self.lemma_first_win_from(player, row, col + 1);
        } else {
            self.lemma_first_win_from(player, row + 1, 0);
        }
    }

    /// A mark on an empty cell lowers by one the number of empty cells in
    /// every prefix that holds the cell, and changes no other count.
    pub proof fn lemma_mark_fills_one(self, row: int, col: int, player: Player, n: int)
        requires
            self.wf(),
            in_range(row, col),
            self.at(row, col) is Empty,
            0 <= n <= 9,
        ensures
            self.marked(row, col, player).empties_before(n) + (if 3 * row + col < n {
                1nat
            } else {
                0nat
            }) == self.empties_before(n),
        decreases n,
    {
        if n > 0 {
            self.lemma_mark_fills_one(row, col, player, n - 1);
        }
    }

    /// Counting further never lowers the count.
    pub proof fn lemma_empties_monotonic(self, m: int, n: int)
        requires
            m <= n,
        ensures
            self.empties_before(m) <= self.empties_before(n),
        decreases n - m,
    {
        if m < n {
            self.lemma_empties_monotonic(m, n - 1);
        }
    }
}

} // verus!
