use vstd::prelude::*;

use crate::board::Board;
use crate::chess::{BoardState, Color, Error, MoveError, Piece, Position, Square, Troop};
use crate::path::path_spec;

verus! {

/// Some square of `path` other than its last one is occupied.
pub open spec fn blocked(b: &Board, path: Seq<Position>) -> bool {
    exists|i: int| 0 <= i < path.len() - 1 && (#[trigger] b.at(path[i])) is Some
}

/// What moving the troop on `from` to `to` gives, the checks taken in order:
/// an occupant on `from`, its side's turn, no friendly troop on `to`, a path
/// the piece may take, and (but for knights) nothing in the way.
pub open spec fn move_outcome(b: &Board, from: Position, to: Position) -> Result<(), Error> {
    match b.at(from) {
        None => Err(Error::Move(MoveError::EmptyStartingSquare)),
        Some(t) => if !b.turn_state().allows(t.color) {
            Err(Error::Move(MoveError::NotYourTurn))
        } else if b.at(to) matches Some(o) && o.color == t.color {
            Err(Error::Move(MoveError::FriendlyFire))
        } else {
            match path_spec(t.piece, t.color, from, to, b.at(to) is Some) {
                Err(e) => Err(e),
                Ok(path) => if t.piece != Piece::Knight && blocked(b, path) {
                    Err(Error::Move(MoveError::PathIsBlocked))
                } else {
                    Ok(())
                },
            }
        },
    }
}

/// The squares after the troop on `from` has gone to `to`: it stands on
/// `to` (whatever stood there is gone), and `from` is empty.
pub open spec fn moved_cells(b: &Board, from: Position, to: Position) -> Seq<Square> {
    let t = b.at(from)->0;
    b.put(to, Some(Troop { piece: t.piece, color: t.color, position: to })).update(
        from.index(),
        Square { troop: None, position: from },
    )
}

/// The state after a move: the turn passes to the other side.
pub open spec fn next_state(s: BoardState) -> BoardState {
    match s {
        BoardState::ToMove(c) => BoardState::ToMove(c.opponent()),
        _ => s,
    }
}

impl Board {
    /// Moves the troop on `from` to `to` if the rules allow it, and passes
    /// the turn. On any error the board is left as it was.
    ///
    /// Moves made while a side is in check are not supported.
    #[verifier::loop_isolation(false)]
    pub fn move_troop(&mut self, from: Position, to: Position) -> (r: Result<(), Error>)
        requires
            old(self).wf(),
            !(old(self).turn_state() is Check),
        ensures
            final(self).wf(),
            r == move_outcome(old(self), from, to),
            r is Ok ==> final(self).cells() == moved_cells(old(self), from, to)
                && final(self).turn_state() == next_state(old(self).turn_state()),
            r is Err ==> final(self).cells() == old(self).cells() && final(self).turn_state()
                == old(self).turn_state(),
    {
        let from_troop = match self.square(from).troop {
            None => return Err(Error::Move(MoveError::EmptyStartingSquare)),
            Some(t) => t,
        };
        if !self.state().can_move(from_troop.color) {
            return Err(Error::Move(MoveError::NotYourTurn));
        }
        let mut capturing = false;
        if let Some(troop) = self.square(to).troop {
            capturing = true;
            if troop.color == from_troop.color {
                return Err(Error::Move(MoveError::FriendlyFire));
            }
        }
        let path = match Self::make_path(&from_troop, from, to, capturing) {
            Ok(path) => path,
            Err(e) => return Err(e),
        };
        if from_troop.piece != Piece::Knight {
            let mut i: usize = 0;
            while i + 1 < path.len()
                invariant
                    self.wf(),
                    i < path@.len(),
                    forall|j: int| 0 <= j < i ==> (#[trigger] self.at(path@[j])) is None,
                decreases path@.len() - i,
            {
                if self.square(path[i]).troop.is_some() {
                    assert(self.at(path@[i as int]) is Some);
                    return Err(Error::Move(MoveError::PathIsBlocked));
                }
                i = i + 1;
            }
            assert(!blocked(self, path@));
        }
        self.replace_troop(to, from_troop);
        self.remove_troop(from);
        let next = match self.state() {
            BoardState::ToMove(Color::White) => BoardState::ToMove(Color::Black),
            BoardState::ToMove(Color::Black) => BoardState::ToMove(Color::White),
            other => other,
        };
        self.set_state(next);
        Ok(())
    }
}

} // verus!
