use crate::grid::{in_range, precedes, Grid};
use crate::types::{Cell, GameStatus, Player};
use vstd::prelude::*;

verus! {

/// The board of three rows and three columns. Cells are addressed by `(row, col)`, both in `0..3`.
#[derive(Clone, Copy, Debug, PartialEq, Eq)]
pub struct Board {
    cells: [Cell; 9],
}

impl View for Board {
    type V = Grid;

    closed spec fn view(&self) -> Grid {
        Grid { cells: self.cells@ }
    }
}

impl Board {
    /// Every board has nine cells.
    pub proof fn lemma_view_wf(self)
        ensures
            self@.wf(),
    {
    }

    /// The board on which nobody has played.
    pub fn new() -> (res: Board)
        ensures
            res@ == Grid::empty(),
    {
        Board { cells: [Cell::Empty; 9] }
    }

    /// Reads the cell at `(row, col)`; `None` outside the board.
    pub fn get(&self, row: usize, col: usize) -> (res: Option<Cell>)
        ensures
            res == self@.get(row as int, col as int),
    {
        if row < 3 && col < 3 {
            Some(self.cells[3 * row + col])
        } else {
            None
        }
    }

    /// Writes `player`'s mark into the cell at `(row, col)` if that cell
    /// exists and is empty; otherwise leaves the board as it is. Returns
    /// whether the mark was written.
    pub fn mark(&mut self, row: usize, col: usize, player: Player) -> (res: bool)
        ensures
            res == (in_range(row as int, col as int) && old(self)@.at(row as int, col as int) is Empty),
            res ==> final(self)@ == old(self)@.marked(row as int, col as int, player),
            !res ==> *final(self) == *old(self),
    {
        if row < 3 && col < 3 && self.cells[3 * row + col] == Cell::Empty {
            self.cells[3 * row + col] = Cell::Marked(player);
            true
        } else {
            false
        }
    }

    /// Tells whether no cell is empty.
    pub fn is_full(&self) -> (res: bool)
        ensures
            res == self@.is_full(),
    {
        let mut i: usize = 0;
        while i < 9
            invariant
                i <= 9,
                forall|k: int| 0 <= k < i ==> !(self.cells@[k] is Empty),
            decreases 9 - i,
        {
            if self.cells[i] == Cell::Empty {
                assert(self@.at(i as int / 3, i as int % 3) is Empty);
                return false;
            }
            i += 1;
        }
        true
    }

    /// Tells whether the cell at `(row, col)` holds `player`'s mark.
    fn owns(&self, row: usize, col: usize, player: Player) -> (res: bool)
        requires
            in_range(row as int, col as int),
        ensures
            res == self@.owns(row as int, col as int, player),
    {
        self.cells[3 * row + col] == Cell::Marked(player)
    }

    /// Tells whether some line through the cell `(row, col)` holds three
    /// marks of `player`. Outside the board there is no such line.
    pub fn line_through(&self, row: usize, col: usize, player: Player) -> (res: bool)
        ensures
            res == self@.line_through(row as int, col as int, player),
    {
        if row >= 3 || col >= 3 {
            return false;
        }
        if self.owns(row, 0, player) && self.owns(row, 1, player) && self.owns(row, 2, player) {
            return true;
        }
        if self.owns(0, col, player) && self.owns(1, col, player) && self.owns(2, col, player) {
            return true;
        }
        if row == col && self.owns(0, 0, player) && self.owns(1, 1, player) && self.owns(
            2,
            2,
            player,
        ) {
            return true;
        }
        if row + col == 2 && self.owns(0, 2, player) && self.owns(1, 1, player) && self.owns(
            2,
            0,
            player,
        ) {
            return true;
        }
        false
    }

    /// Returns the player whose mark at `(row, col)` lies on a complete
    /// line, and `None` where the cell is empty, completes no line or lies
    /// outside the board.
    pub fn winner_at(&self, row: usize, col: usize) -> (res: Option<Player>)
        ensures
            res == self@.winner_at(row as int, col as int),
    {
        match self.get(row, col) {
            Some(Cell::Marked(player)) => {
                if self.line_through(row, col, player) {
                    Some(player)
                } else {
                    None
                }
            },
            _ => None,
        }
    }

    /// Evaluates the game from the cell that was marked last: a win for
    /// the owner of a complete line through it, else a draw on a full
    /// board, else a game in progress. A cell that is empty or outside the
    /// board wins for nobody.
    pub fn evaluate(&self, row: usize, col: usize) -> (res: GameStatus)
        ensures
            res == self@.evaluate(row as int, col as int),
    {
        match self.winner_at(row, col) {
            Some(player) => GameStatus::Won(player),
            None => {
                if self.is_full() {
                    GameStatus::Draw
                } else {
                    GameStatus::InProgress
                }
            },
        }
    }

    /// Tells whether `player` would complete a line by marking
    /// `(row, col)`. The board itself is not changed.
    pub fn would_win(&self, row: usize, col: usize, player: Player) -> (res: bool)
        ensures
            res == self@.would_win(row as int, col as int, player),
    {
        let mut trial = *self;
        trial.mark(row, col, player) && trial.line_through(row, col, player)
    }

    /// Scans the board in row-major order for the first empty cell that
    /// would complete a line for `player`.
    pub fn find_winning_cell(&self, player: Player) -> (res: Option<(usize, usize)>)
        ensures
            match res {
                Some((row, col)) => self@.first_win(row as int, col as int, player),
                None => !self@.can_win(player),
            },
    {
        let mut row: usize = 0;
        while row < 3
            invariant
                row <= 3,
                forall|r: int, c: int|
                    precedes(r, c, row as int, 0) ==> !#[trigger] self@.would_win(r, c, player),
            decreases 3 - row,
        {
            let mut col: usize = 0;
            while col < 3
                invariant
                    row < 3,
                    col <= 3,
                    forall|r: int, c: int|
                        precedes(r, c, row as int, col as int) ==> !#[trigger] self@.would_win(
                            r,
                            c,
                            player,
                        ),
                decreases 3 - col,
            {
                if self.would_win(row, col, player) {
                    return Some((row, col));
                }
                col += 1;
            }
            row += 1;
        }
        None
    }

    /// Tells whether some line of the board holds three marks of `player`.
    pub fn has_line(&self, player: Player) -> (res: bool)
        ensures
            res == self@.has_line(player),
    {
        self.line_through(0, 0, player) || self.line_through(1, 1, player) || self.line_through(
            2,
            2,
            player,
        ) || self.line_through(0, 2, player) || self.line_through(2, 0, player)
    }

    /// Evaluates the game from the whole board: a win for a player who
    /// holds a line, else a draw on a full board, else a game in progress.
    pub fn outcome(&self) -> (res: GameStatus)
        ensures
            res == self@.outcome(),
    {
        if self.has_line(Player::X) {
            GameStatus::Won(Player::X)
        } else if self.has_line(Player::O) {
            GameStatus::Won(Player::O)
        } else if self.is_full() {
            GameStatus::Draw
        } else {
            GameStatus::InProgress
        }
    }

    /// Counts the empty cells.
    pub fn count_empty(&self) -> (res: usize)
        ensures
            res == self@.empty_count(),
            res <= 9,
    {
        let mut count: usize = 0;
        let mut i: usize = 0;
        while i < 9
            invariant
                i <= 9,
                count <= i,
                count == self@.empties_before(i as int),
            decreases 9 - i,
        {
            if self.cells[i] == Cell::Empty {
                count += 1;
            }
            i += 1;
        }
        count
    }

    /// Returns the empty cell that has exactly `k` empty cells before it
    /// in row-major order. There is such a cell for every `k` below the
    /// number of empty cells, and for no other.
    pub fn nth_empty(&self, k: usize) -> (res: (usize, usize))
        requires
            k < self@.empty_count(),
        ensures
            self@.is_nth_empty(res.0 as int, res.1 as int, k as nat),
    {
        let mut seen: usize = 0;
        let mut row: usize = 0;
        let mut col: usize = 0;
        while !(self.cells[3 * row + col] == Cell::Empty && seen == k)
            invariant
                in_range(row as int, col as int),
                seen <= k,
                seen == self@.empties_before(3 * row + col),
                k < self@.empties_before(9),
            decreases 9 - (3 * row + col),
        {
            proof {
                self@.lemma_empties_monotonic(3 * row + col + 1, 9);
            }
            if self.cells[3 * row + col] == Cell::Empty {
                seen += 1;
            }
            if col < 2 {
                col += 1;
            } else {
                row += 1;
                col = 0;
            }
        }
        (row, col)
    }
}

} // verus!
