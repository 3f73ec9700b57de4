use vstd::prelude::*;

use crate::board::{lemma_slot, lemma_slot_injective, Board};
use crate::chess::{BoardState, Color, Error, MoveError, Piece, Position, Square, Troop};
use crate::engine::{blocked, move_outcome, moved_cells, next_state};
use crate::path::{file_diff, home_rank, path_spec, path_squares, rank_diff, toward};

verus! {

/// The moves the geometry of each piece allows, as a table of file and rank
/// distances: a pawn steps one or two ranks (two only from its home rank)
/// and one file only when capturing; a rook keeps its file or its rank; a
/// knight goes two by one; a bishop keeps equal distances; a king goes at
/// most one square each way; a queen moves as a rook or a bishop.
pub open spec fn legal_shape(
    piece: Piece,
    color: Color,
    from: Position,
    to: Position,
    capturing: bool,
) -> bool {
    let fd = file_diff(from, to);
    let rd = rank_diff(from, to);
    match piece {
        Piece::Pawn => {
            &&& (rd == 1 || rd == 2)
            &&& fd <= 1
            &&& (rd == 2 ==> from.rank == home_rank(color))
            &&& (fd == 1 ==> capturing)
        },
        Piece::Rook => (fd == 0 || rd == 0) && fd + rd > 0,
        Piece::Knight => (fd == 1 && rd == 2) || (fd == 2 && rd == 1),
        Piece::Bishop => fd == rd && fd > 0,
        Piece::King => fd <= 1 && rd <= 1 && fd + rd > 0,
        Piece::Queen => (fd == 0 || rd == 0 || fd == rd) && fd + rd > 0,
    }
}

/// Two positions are the same exactly when they are zero distance apart.
pub proof fn lemma_same_square(from: Position, to: Position)
    ensures
        (from == to) <==> (file_diff(from, to) == 0 && rank_diff(from, to) == 0),
        0 <= file_diff(from, to) < 8,
        0 <= rank_diff(from, to) < 8,
{
    lemma_slot(from);
    lemma_slot(to);
}

/// The zero-based coordinates of `Position::at(f, r)` are `f` and `r`.
pub proof fn lemma_at_coordinates(f: int, r: int)
    requires
        0 <= f < 8,
        0 <= r < 8,
    ensures
        Position::at(f, r).file.index() == f,
        Position::at(f, r).rank.index() == r,
{
}

/// A move from a square to itself never succeeds, and a path from a square
/// to itself is refused with `NoMotion` whatever the piece.
pub proof fn lemma_no_motion(b: &Board, p: Position, piece: Piece, color: Color, capturing: bool)
    requires
        b.wf(),
    ensures
        move_outcome(b, p, p) is Err,
        path_spec(piece, color, p, p, capturing) == Err::<Seq<Position>, Error>(
            Error::Move(MoveError::NoMotion),
        ),
{
}

/// A move succeeds only for the side whose turn it is, and passes the turn
/// to the other side.
pub proof fn lemma_turn_passes(b: &Board, from: Position, to: Position)
    requires
        b.wf(),
        !(b.turn_state() is Check),
    ensures
        move_outcome(b, from, to) is Ok ==> {
            &&& b.at(from) is Some
            &&& b.turn_state() == BoardState::ToMove(b.at(from)->0.color)
            &&& next_state(b.turn_state()) == BoardState::ToMove(b.at(from)->0.color.opponent())
        },
        b.at(from) matches Some(t) && !b.turn_state().allows(t.color) ==> move_outcome(b, from, to)
            == Err::<(), Error>(Error::Move(MoveError::NotYourTurn)),
{
}

/// After a successful move the destination holds the moved troop, the
/// origin is empty, and every other square is as it was.
pub proof fn lemma_occupancy(b: &Board, from: Position, to: Position)
    requires
        b.wf(),
        move_outcome(b, from, to) is Ok,
    ensures
        ({
            let after = moved_cells(b, from, to);
            let t = b.at(from)->0;
            &&& after.len() == 64
            &&& after[to.index()] == (Square {
                troop: Some(Troop { piece: t.piece, color: t.color, position: to }),
                position: to,
            })
            &&& after[from.index()] == (Square { troop: None, position: from })
            &&& forall|q: Position|
                q != from && q != to ==> after[q.index()] == #[trigger] b.cells()[q.index()]
        }),
{
    lemma_slot(from);
    lemma_slot(to);
    lemma_slot_injective(from, to);
    assert forall|q: Position| q != from && q != to implies moved_cells(b, from, to)[q.index()]
        == #[trigger] b.cells()[q.index()] by {
        lemma_slot(q);
        lemma_slot_injective(q, from);
        lemma_slot_injective(q, to);
    }
}

/// A knight's move is never blocked: whatever stands on the other squares,
/// it succeeds when it is the knight's turn, the shape is two by one, and no
/// friendly troop holds the destination.
pub proof fn lemma_knight_jumps(b: &Board, from: Position, to: Position)
    requires
        b.wf(),
        b.at(from) matches Some(t) && t.piece == Piece::Knight && b.turn_state().allows(t.color),
        !(b.at(to) matches Some(o) && o.color == b.at(from)->0.color),
        (file_diff(from, to) == 1 && rank_diff(from, to) == 2) || (file_diff(from, to) == 2
            && rank_diff(from, to) == 1),
    ensures
        move_outcome(b, from, to) == Ok::<(), Error>(()),
{
    lemma_same_square(from, to);
}

/// Each piece's path exists exactly when the move has the shape the
/// piece's table row allows.
pub proof fn lemma_geometry(
    piece: Piece,
    color: Color,
    from: Position,
    to: Position,
    capturing: bool,
)
    ensures
        path_spec(piece, color, from, to, capturing) is Ok <==> legal_shape(
            piece,
            color,
            from,
            to,
            capturing,
        ),
{
    lemma_same_square(from, to);
}

/// No square of a legal path but the last is the origin.
proof fn lemma_path_leaves_origin(piece: Piece, color: Color, from: Position, to: Position)
    requires
        legal_shape(piece, color, from, to, false),
    ensures
        path_squares(piece, from, to).len() >= 1,
        forall|i: int|
            0 <= i < path_squares(piece, from, to).len() - 1 ==> #[trigger] path_squares(
                piece,
                from,
                to,
            )[i] != from,
{
    lemma_same_square(from, to);
    let path = path_squares(piece, from, to);
    let ff = from.file.index();
    let fr = from.rank.index();
    let tf = to.file.index();
    let tr = to.rank.index();
    assert forall|i: int| 0 <= i < path.len() - 1 implies #[trigger] path[i] != from by {
        match piece {
            Piece::Pawn => {
                lemma_at_coordinates(ff, toward(fr, tr, 1));
            },
            Piece::Rook | Piece::Bishop | Piece::Queen => {
                lemma_at_coordinates(toward(ff, tf, i + 1), toward(fr, tr, i + 1));
            },
            _ => {},
        }
    }
}

/// On a board where only `from` is occupied, by a troop of the side to
/// move, a move succeeds exactly when its shape is legal for that troop.
pub proof fn lemma_lone_troop(b: &Board, from: Position, to: Position)
    requires
        b.wf(),
        b.at(from) matches Some(t) && b.turn_state().allows(t.color),
        forall|q: Position| q != from ==> (#[trigger] b.at(q)) is None,
    ensures
        move_outcome(b, from, to) is Ok <==> legal_shape(
            b.at(from)->0.piece,
            b.at(from)->0.color,
            from,
            to,
            false,
        ),
{
    let t = b.at(from)->0;
    lemma_same_square(from, to);
    lemma_geometry(t.piece, t.color, from, to, false);
    if legal_shape(t.piece, t.color, from, to, false) {
        lemma_path_leaves_origin(t.piece, t.color, from, to);
        let path = path_squares(t.piece, from, to);
        assert(!blocked(b, path));
    }
}

} // verus!
