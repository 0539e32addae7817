use vstd::prelude::*;

verus! {

/// One of the two sides. `X` is the human's mark, `O` the opponent's.
#[derive(Clone, Copy, Debug, PartialEq, Eq, Structural)]
pub enum Player {
    X,
    O,
}

/// What one of the nine board positions holds.
#[derive(Clone, Copy, Debug, PartialEq, Eq, Structural)]
pub enum Cell {
    Empty,
    Marked(Player),
}

/// Where a game stands. `Won` and `Draw` are terminal.
#[derive(Clone, Copy, Debug, PartialEq, Eq, Structural)]
pub enum GameStatus {
    InProgress,
    Won(Player),
    Draw,
}

impl Player {
    /// The other side.
    pub open spec fn other(self) -> Player {
        match self {
            Player::X => Player::O,
            Player::O => Player::X,
        }
    }

    /// The letter that stands for the side.
    pub open spec fn letter(self) -> char {
        match self {
            Player::X => 'X',
            Player::O => 'O',
        }
    }

    /// Returns the letter that stands for the side, as it is drawn on the
    /// board.
    pub fn symbol(self) -> (res: char)
        ensures
            res == self.letter(),
    {
        match self {
            Player::X => 'X',
            Player::O => 'O',
        }
    }

    /// Returns the other side.
    pub fn opponent(self) -> (res: Player)
        ensures
            res == self.other(),
    {
        match self {
            Player::X => Player::O,
            Player::O => Player::X,
        }
    }
}

impl GameStatus {
    /// A status from which no further move is accepted.
    pub open spec fn terminal(self) -> bool {
        !(self is InProgress)
    }

    /// Tells whether the game is over.
    pub fn is_terminal(self) -> (res: bool)
        ensures
            res == self.terminal(),
    {
        match self {
            GameStatus::InProgress => false,
            _ => true,
        }
    }

    /// The text shown for a status: nothing while the game runs, the
    /// winner's name or the draw once it is over.
    pub open spec fn message_text(self) -> Option<Seq<char>> {
        match self {
            GameStatus::InProgress => None,
            GameStatus::Won(Player::X) => Some("Player X won!"@),
            GameStatus::Won(Player::O) => Some("Player O won!"@),
            GameStatus::Draw => Some("Draw!"@),
        }
    }

    /// Returns the human-readable message of a terminal status, and `None`
    /// while the game is in progress.
    pub fn message(self) -> (res: Option<String>)
        ensures
            res is Some == self.terminal(),
            res matches Some(text) ==> self.message_text() == Some(text@),
    {
        match self {
            GameStatus::InProgress => None,
            GameStatus::Won(Player::X) => Some("Player X won!".to_owned()),
            GameStatus::Won(Player::O) => Some("Player O won!".to_owned()),
            GameStatus::Draw => Some("Draw!".to_owned()),
        }
    }
}

} // verus!
