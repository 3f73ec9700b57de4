use vstd::prelude::*;
use vstd::string::*;

verus! {

/// Why a request could not be served: a coordinate out of range, or a
/// rejected move.
#[derive(Debug, PartialEq, Eq, Clone, Copy)]
pub enum Error {
    RankParse,
    FileParse,
    Move(MoveError),
}

impl Error {
    /// The text shown to a client for this error.
    pub open spec fn message_spec(self) -> Seq<char> {
        match self {
            Error::RankParse => "Invalid rank"@,
            Error::FileParse => "Invalid file"@,
            Error::Move(e) => match e {
                MoveError::EmptyStartingSquare => "Starting square is empty"@,
                MoveError::NotYourTurn => "Not your turn"@,
                MoveError::FriendlyFire => "Friendly fire is not allowed"@,
                MoveError::InvalidPath(reason) => "Invalid path. Reason: "@ + reason@,
                MoveError::PathIsBlocked => "Path is blocked"@,
                MoveError::NoMotion => "No motion"@,
            },
        }
    }

    pub fn message(&self) -> (m: String)
        ensures
            m@ == self.message_spec(),
    {
        match self {
            Error::RankParse => String::from_str("Invalid rank"),
            Error::FileParse => String::from_str("Invalid file"),
            Error::Move(e) => match e {
                MoveError::EmptyStartingSquare => String::from_str("Starting square is empty"),
                MoveError::NotYourTurn => String::from_str("Not your turn"),
                MoveError::FriendlyFire => String::from_str("Friendly fire is not allowed"),
                MoveError::InvalidPath(reason) => {
                    let mut m = String::from_str("Invalid path. Reason: ");
                    m.append(reason);
                    m
                },
                MoveError::PathIsBlocked => String::from_str("Path is blocked"),
                MoveError::NoMotion => String::from_str("No motion"),
            },
        }
    }
}

/// A troop could not be placed because its square is taken.
#[derive(Debug, PartialEq, Eq, Clone, Copy)]
pub struct SquareOccupied;

/// Why a move was rejected.
#[derive(Debug, PartialEq, Eq, Clone, Copy)]
pub enum MoveError {
    EmptyStartingSquare,
    NotYourTurn,
    FriendlyFire,
    InvalidPath(&'static str),
    PathIsBlocked,
    NoMotion,
}

/// A row of the board, `One` (White's back rank) to `Eight`.
#[derive(PartialEq, Eq, Structural, Hash, Debug, Copy, Clone)]
pub enum Rank {
    One,
    Two,
    Three,
    Four,
    Five,
    Six,
    Seven,
    Eight,
}

impl Rank {
    /// Zero-based ordinal: `One` is 0, `Eight` is 7.
    pub open spec fn index(self) -> int {
        match self {
            Rank::One => 0,
            Rank::Two => 1,
            Rank::Three => 2,
            Rank::Four => 3,
            Rank::Five => 4,
            Rank::Six => 5,
            Rank::Seven => 6,
            Rank::Eight => 7,
        }
    }

    /// The rank with zero-based ordinal `i` (meaningful for `0 <= i < 8`).
    pub open spec fn at_index(i: int) -> Rank {
        if i <= 0 {
            Rank::One
        } else if i == 1 {
            Rank::Two
        } else if i == 2 {
            Rank::Three
        } else if i == 3 {
            Rank::Four
        } else if i == 4 {
            Rank::Five
        } else if i == 5 {
            Rank::Six
        } else if i == 6 {
            Rank::Seven
        } else {
            Rank::Eight
        }
    }

    /// What parsing the number `n` gives: ranks are numbered 1 to 8.
    pub open spec fn parse_spec(n: u8) -> Result<Rank, Error> {
        if 1 <= n <= 8 {
            Ok(Rank::at_index(n - 1))
        } else {
            Err(Error::RankParse)
        }
    }

    pub fn ordinal(self) -> (r: u8)
        ensures
            r as int == self.index(),
            r < 8,
    {
        match self {
            Rank::One => 0,
            Rank::Two => 1,
            Rank::Three => 2,
            Rank::Four => 3,
            Rank::Five => 4,
            Rank::Six => 5,
            Rank::Seven => 6,
            Rank::Eight => 7,
        }
    }
}

impl TryFrom<u8> for Rank {
    type Error = Error;

    fn try_from(rank: u8) -> (r: Result<Self, Self::Error>) {
        match rank {
            1 => Ok(Rank::One),
            2 => Ok(Rank::Two),
            3 => Ok(Rank::Three),
            4 => Ok(Rank::Four),
            5 => Ok(Rank::Five),
            6 => Ok(Rank::Six),
            7 => Ok(Rank::Seven),
            8 => Ok(Rank::Eight),
            _ => Err(Error::RankParse),
        }
    }
}

impl vstd::std_specs::convert::TryFromSpecImpl<u8> for Rank {
    open spec fn obeys_try_from_spec() -> bool {
        true
    }

    open spec fn try_from_spec(v: u8) -> Result<Self, Error> {
        Rank::parse_spec(v)
    }
}

/// A column of the board, `A` to `H`.
#[derive(PartialEq, Eq, Structural, Hash, Debug, Clone, Copy)]
pub enum File {
    A,
    B,
    C,
    D,
    E,
    F,
    G,
    H,
}

impl File {
    /// Zero-based ordinal: `A` is 0, `H` is 7.
    pub open spec fn index(self) -> int {
        match self {
            File::A => 0,
            File::B => 1,
            File::C => 2,
            File::D => 3,
            File::E => 4,
            File::F => 5,
            File::G => 6,
            File::H => 7,
        }
    }

    /// The file with zero-based ordinal `i` (meaningful for `0 <= i < 8`).
    pub open spec fn at_index(i: int) -> File {
        if i <= 0 {
            File::A
        } else if i == 1 {
            File::B
        } else if i == 2 {
            File::C
        } else if i == 3 {
            File::D
        } else if i == 4 {
            File::E
        } else if i == 5 {
            File::F
        } else if i == 6 {
            File::G
        } else {
            File::H
        }
    }

    /// What parsing the number `n` gives: files are numbered 1 (`A`) to 8 (`H`).
    pub open spec fn parse_spec(n: u8) -> Result<File, Error> {
        if 1 <= n <= 8 {
            Ok(File::at_index(n - 1))
        } else {
            Err(Error::FileParse)
        }
    }

    pub fn ordinal(self) -> (r: u8)
        ensures
            r as int == self.index(),
            r < 8,
    {
        match self {
            File::A => 0,
            File::B => 1,
            File::C => 2,
            File::D => 3,
            File::E => 4,
            File::F => 5,
            File::G => 6,
            File::H => 7,
        }
    }
}

impl TryFrom<u8> for File {
    type Error = Error;

    fn try_from(file: u8) -> (r: Result<Self, Self::Error>) {
        match file {
            1 => Ok(File::A),
            2 => Ok(File::B),
            3 => Ok(File::C),
            4 => Ok(File::D),
            5 => Ok(File::E),
            6 => Ok(File::F),
            7 => Ok(File::G),
            8 => Ok(File::H),
            _ => Err(Error::FileParse),
        }
    }
}

impl vstd::std_specs::convert::TryFromSpecImpl<u8> for File {
    open spec fn obeys_try_from_spec() -> bool {
        true
    }

    open spec fn try_from_spec(v: u8) -> Result<Self, Error> {
        File::parse_spec(v)
    }
}

/// A square's coordinates.
#[derive(Debug, Clone, Copy, PartialEq, Eq, Structural, Hash)]
pub struct Position {
    pub file: File,
    pub rank: Rank,
}

impl Position {
    /// Where the square lives in the board's row-major table: eight ranks
    /// per file.
    pub open spec fn index(self) -> int {
        self.file.index() * 8 + self.rank.index()
    }

    /// The position with zero-based file `f` and rank `r`.
    pub open spec fn at(f: int, r: int) -> Position {
        Position { file: File::at_index(f), rank: Rank::at_index(r) }
    }

    /// The position stored at slot `i` of the board's table.
    pub open spec fn of_slot(i: int) -> Position {
        Position::at(i / 8, i % 8)
    }
}

/// The kind of a chess piece.
#[derive(Debug, Clone, Copy, PartialEq, Eq, Structural, Hash)]
pub enum Piece {
    Pawn,
    Knight,
    Bishop,
    Rook,
    Queen,
    King,
}

/// A side.
#[derive(Debug, Clone, Copy, PartialEq, Eq, Structural, Hash)]
pub enum Color {
    Black,
    White,
}

impl Color {
    pub open spec fn opponent(self) -> Color {
        match self {
            Color::White => Color::Black,
            Color::Black => Color::White,
        }
    }
}

/// A piece of one side, standing on `position`.
#[derive(Debug, Clone, Copy, PartialEq, Eq, Structural, Hash)]
pub struct Troop {
    pub piece: Piece,
    pub color: Color,
    pub position: Position,
}

/// One cell of the board and its occupant, if any.
#[derive(Debug, Clone, Copy, PartialEq, Eq, Structural)]
pub struct Square {
    pub troop: Option<Troop>,
    pub position: Position,
}

/// Where the game stands. Only `ToMove` is ever entered by a move; the other
/// states can be set directly.
#[derive(Debug, Clone, Copy, PartialEq, Eq, Structural)]
pub enum BoardState {
    ToMove(Color),
    Check(Color),
    Checkmate(Color),
    Stalemate,
    Draw,
}

impl BoardState {
    /// The side named by `ToMove` or `Check` may move; in any other state
    /// nobody may.
    pub open spec fn allows(self, team: Color) -> bool {
        match self {
            BoardState::ToMove(c) => c == team,
            BoardState::Check(c) => c == team,
            _ => false,
        }
    }

    pub fn can_move(&self, team: Color) -> (r: bool)
        ensures
            r == self.allows(team),
    {
        match self {
            BoardState::ToMove(color) => *color == team,
            BoardState::Check(color) => *color == team,
            _ => false,
        }
    }
}

} // verus!
