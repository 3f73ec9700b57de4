use vstd::prelude::*;

use crate::board::{position_at, Board};
use crate::chess::{Color, Error, MoveError, Piece, Position, Rank, Troop};

verus! {

pub const PAWN_NOT_ON_HOME_RANK: &'static str = "Pawn must be on its starting square to move two spaces";

pub const PAWN_TOO_FAR_VERTICALLY: &'static str = "Pawn cannot move more than two spaces vertically";

pub const PAWN_TOO_FAR_HORIZONTALLY: &'static str = "Pawn cannot move more than one space horizontally";

pub const PAWN_DIAGONAL_WITHOUT_CAPTURE: &'static str = "Pawn cannot move diagonally without capturing";

pub const PAWN_SIDEWAYS: &'static str = "Pawn must move at least one space vertically";

pub const ROOK_NOT_STRAIGHT: &'static str = "Rook must move in a purely vertical or horizontal line";

pub const KNIGHT_NOT_L_SHAPED: &'static str =
    "Knight must move either two spaces horizontally and one space vertically, or two spaces vertically and one space horizontally";

pub const BISHOP_NOT_DIAGONAL: &'static str = "Bishop must move in a purely diagonal line";

pub const KING_TOO_FAR: &'static str = "King cannot move more than one space in any direction";

pub const QUEEN_NOT_STRAIGHT_OR_DIAGONAL: &'static str =
    "Queen must move in a purely vertical, horizontal, or diagonal line";

pub open spec fn abs(x: int) -> int {
    if x < 0 {
        -x
    } else {
        x
    }
}

/// How many files apart `from` and `to` are.
pub open spec fn file_diff(from: Position, to: Position) -> int {
    abs(from.file.index() - to.file.index())
}

/// How many ranks apart `from` and `to` are.
pub open spec fn rank_diff(from: Position, to: Position) -> int {
    abs(from.rank.index() - to.rank.index())
}

/// The only rank from which a pawn of `color` may advance two squares.
pub open spec fn home_rank(color: Color) -> Rank {
    match color {
        Color::White => Rank::Two,
        Color::Black => Rank::Seven,
    }
}

/// The reason a `piece` of `color` may not go from `from` to `to` (a
/// distinct square), or `None` where the geometry allows it. `capturing`
/// says whether `to` holds an enemy troop.
pub open spec fn path_violation(
    piece: Piece,
    color: Color,
    from: Position,
    to: Position,
    capturing: bool,
) -> Option<&'static str> {
    let fd = file_diff(from, to);
    let rd = rank_diff(from, to);
    match piece {
        Piece::Pawn => {
            if rd == 2 && from.rank != home_rank(color) {
                Some(PAWN_NOT_ON_HOME_RANK)
            } else if rd > 2 {
                Some(PAWN_TOO_FAR_VERTICALLY)
            } else if fd > 1 {
                Some(PAWN_TOO_FAR_HORIZONTALLY)
            } else if fd == 1 && !capturing {
                Some(PAWN_DIAGONAL_WITHOUT_CAPTURE)
            } else if rd == 0 {
                Some(PAWN_SIDEWAYS)
            } else {
                None
            }
        },
        Piece::Rook => if fd > 0 && rd > 0 {
            Some(ROOK_NOT_STRAIGHT)
        } else {
            None
        },
        Piece::Knight => if fd == 0 || rd == 0 || fd + rd != 3 {
            Some(KNIGHT_NOT_L_SHAPED)
        } else {
            None
        },
        Piece::Bishop => if fd != rd {
            Some(BISHOP_NOT_DIAGONAL)
        } else {
            None
        },
        Piece::King => if fd > 1 || rd > 1 {
            Some(KING_TOO_FAR)
        } else {
            None
        },
        Piece::Queen => if fd > 0 && rd > 0 && fd != rd {
            Some(QUEEN_NOT_STRAIGHT_OR_DIAGONAL)
        } else {
            None
        },
    }
}

/// The coordinate `k` steps from `a` toward `b` (staying on `a` when they
/// are equal).
pub open spec fn toward(a: int, b: int, k: int) -> int {
    if a < b {
        a + k
    } else if a > b {
        a - k
    } else {
        a
    }
}

/// The squares a straight or diagonal move passes, from the first one after
/// `from` up to and including `to`.
pub open spec fn line_path(from: Position, to: Position) -> Seq<Position> {
    let n = if file_diff(from, to) > rank_diff(from, to) {
        file_diff(from, to)
    } else {
        rank_diff(from, to)
    };
    Seq::new(
        n as nat,
        |k: int|
            Position::at(
                toward(from.file.index(), to.file.index(), k + 1),
                toward(from.rank.index(), to.rank.index(), k + 1),
            ),
    )
}

/// The squares a `piece` crosses going from `from` to `to`, ending with `to`:
/// a pawn's double step passes the square in front of it; knights and kings
/// list only the destination.
pub open spec fn path_squares(piece: Piece, from: Position, to: Position) -> Seq<Position> {
    match piece {
        Piece::Pawn => if rank_diff(from, to) == 2 {
            seq![
                Position::at(
                    from.file.index(),
                    toward(from.rank.index(), to.rank.index(), 1),
                ),
                to,
            ]
        } else {
            seq![to]
        },
        Piece::Knight | Piece::King => seq![to],
        Piece::Rook | Piece::Bishop | Piece::Queen => line_path(from, to),
    }
}

/// The path of a `piece` of `color` from `from` to `to`, or why it has none.
pub open spec fn path_spec(
    piece: Piece,
    color: Color,
    from: Position,
    to: Position,
    capturing: bool,
) -> Result<Seq<Position>, Error> {
    if from == to {
        Err(Error::Move(MoveError::NoMotion))
    } else {
        match path_violation(piece, color, from, to, capturing) {
            Some(reason) => Err(Error::Move(MoveError::InvalidPath(reason))),
            None => Ok(path_squares(piece, from, to)),
        }
    }
}

fn diff(a: u8, b: u8) -> (d: u8)
    ensures
        d as int == abs(a - b),
{
    if a < b {
        b - a
    } else {
        a - b
    }
}

fn step_toward(a: u8, b: u8, k: u8) -> (c: u8)
    requires
        a < 8,
        b < 8,
        a == b || k <= abs(a - b),
    ensures
        c as int == toward(a as int, b as int, k as int),
        c < 8,
{
    if a < b {
        a + k
    } else if a > b {
        a - k
    } else {
        a
    }
}

/// Pushes the squares of a straight or diagonal line, `n` steps long, onto
/// `path`.
fn push_line(path: &mut Vec<Position>, from: Position, to: Position, n: u8)
    requires
        old(path)@.len() == 0,
        n as int == if file_diff(from, to) > rank_diff(from, to) {
            file_diff(from, to)
        } else {
            rank_diff(from, to)
        },
        file_diff(from, to) == 0 || file_diff(from, to) == n,
        rank_diff(from, to) == 0 || rank_diff(from, to) == n,
    ensures
        final(path)@ == line_path(from, to),
{
    let ff = from.file.ordinal();
    let fr = from.rank.ordinal();
    let tf = to.file.ordinal();
    let tr = to.rank.ordinal();
    assert(line_path(from, to).len() == n);
    let mut k: u8 = 1;
    while k <= n
        invariant
            1 <= k <= n + 1,
            n < 8,
            ff as int == from.file.index(),
            fr as int == from.rank.index(),
            tf as int == to.file.index(),
            tr as int == to.rank.index(),
            ff < 8 && fr < 8 && tf < 8 && tr < 8,
            file_diff(from, to) == 0 || file_diff(from, to) == n,
            rank_diff(from, to) == 0 || rank_diff(from, to) == n,
            line_path(from, to).len() == n,
            path@ == line_path(from, to).take(k - 1),
        decreases n + 1 - k,
    {
        let f = step_toward(ff, tf, k);
        let r = step_toward(fr, tr, k);
        path.push(position_at(f, r));
        assert(path@ =~= line_path(from, to).take(k as int));
        k = k + 1;
    }
    assert(line_path(from, to).take(n as int) =~= line_path(from, to));
}

impl Board {
    /// The path that `troop` takes from `from` to `to`: the squares strictly
    /// between them in order, then `to` itself. `capturing` says whether `to`
    /// holds an enemy troop. Fails with `NoMotion` when the squares are the
    /// same, and with `InvalidPath` when the piece cannot move that way.
    pub fn make_path(troop: &Troop, from: Position, to: Position, capturing: bool) -> (r: Result<
        Vec<Position>,
        Error,
    >)
        ensures
            match r {
                Ok(path) => path_spec(troop.piece, troop.color, from, to, capturing) == Ok::<
                    Seq<Position>,
                    Error,
                >(path@),
                Err(e) => path_spec(troop.piece, troop.color, from, to, capturing) == Err::<
                    Seq<Position>,
                    Error,
                >(e),
            },
    {
        if from == to {
            return Err(Error::Move(MoveError::NoMotion));
        }
        let mut path: Vec<Position> = Vec::new();
        let ff = from.file.ordinal();
        let fr = from.rank.ordinal();
        let tf = to.file.ordinal();
        let tr = to.rank.ordinal();
        let file_diff = diff(ff, tf);
        let rank_diff = diff(fr, tr);
        match troop.piece {
            Piece::Pawn => {
                if rank_diff == 2 {
                    let home = match troop.color {
                        Color::White => Rank::Two,
                        Color::Black => Rank::Seven,
                    };
                    if from.rank != home {
                        return Err(Error::Move(MoveError::InvalidPath(PAWN_NOT_ON_HOME_RANK)));
                    }
                }
                if rank_diff > 2 {
                    return Err(Error::Move(MoveError::InvalidPath(PAWN_TOO_FAR_VERTICALLY)));
                }
                if file_diff > 1 {
                    return Err(Error::Move(MoveError::InvalidPath(PAWN_TOO_FAR_HORIZONTALLY)));
                }
                if file_diff == 1 && !capturing {
                    return Err(Error::Move(MoveError::InvalidPath(PAWN_DIAGONAL_WITHOUT_CAPTURE)));
                }
                if rank_diff == 0 {
                    return Err(Error::Move(MoveError::InvalidPath(PAWN_SIDEWAYS)));
                }
                if rank_diff == 2 {
                    path.push(position_at(ff, step_toward(fr, tr, 1)));
                }
                path.push(to);
            },
            Piece::Rook => {
                if file_diff > 0 && rank_diff > 0 {
                    return Err(Error::Move(MoveError::InvalidPath(ROOK_NOT_STRAIGHT)));
                }
                push_line(&mut path, from, to, file_diff + rank_diff);
            },
            Piece::Knight => {
                if file_diff == 0 || rank_diff == 0 || file_diff + rank_diff != 3 {
                    return Err(Error::Move(MoveError::InvalidPath(KNIGHT_NOT_L_SHAPED)));
                }
                path.push(to);
            },
            Piece::Bishop => {
                if file_diff != rank_diff {
                    return Err(Error::Move(MoveError::InvalidPath(BISHOP_NOT_DIAGONAL)));
                }
                push_line(&mut path, from, to, file_diff);
            },
            Piece::King => {
                if file_diff > 1 || rank_diff > 1 {
                    return Err(Error::Move(MoveError::InvalidPath(KING_TOO_FAR)));
                }
                path.push(to);
            },
            Piece::Queen => {
                if file_diff > 0 && rank_diff > 0 && file_diff != rank_diff {
                    return Err(
                        Error::Move(MoveError::InvalidPath(QUEEN_NOT_STRAIGHT_OR_DIAGONAL)),
                    );
                }
                let n = if file_diff > rank_diff {
                    file_diff
                } else {
                    rank_diff
                };
                push_line(&mut path, from, to, n);
            },
        }
        assert(path@ =~= path_squares(troop.piece, from, to));
        Ok(path)
    }
}

} // verus!
