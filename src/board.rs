use vstd::prelude::*;

use crate::chess::{BoardState, Color, File, Piece, Position, Rank, Square, SquareOccupied, Troop};

verus! {

/// The 64 squares of a chess board and whose turn it is.
///
/// The squares are held in a row-major table: slot `8 * file + rank` (both
/// zero-based) holds the square at that position.
#[derive(Debug)]
pub struct Board {
    squares: Vec<Square>,
    state: BoardState,
}

/// The piece that starts on `file` of a back rank.
pub open spec fn back_rank_piece(file: File) -> Piece {
    match file {
        File::A | File::H => Piece::Rook,
        File::B | File::G => Piece::Knight,
        File::C | File::F => Piece::Bishop,
        File::D => Piece::Queen,
        File::E => Piece::King,
    }
}

/// What the standard setup puts on `p`: pawns on ranks 2 and 7, the back
/// ranks 1 (White) and 8 (Black), nothing elsewhere.
pub open spec fn standard_troop(p: Position) -> Option<Troop> {
    match p.rank {
        Rank::Two => Some(Troop { piece: Piece::Pawn, color: Color::White, position: p }),
        Rank::Seven => Some(Troop { piece: Piece::Pawn, color: Color::Black, position: p }),
        Rank::One => Some(Troop { piece: back_rank_piece(p.file), color: Color::White, position: p }),
        Rank::Eight => Some(Troop { piece: back_rank_piece(p.file), color: Color::Black, position: p }),
        _ => None,
    }
}

/// Each position's slot in the table is a distinct number below 64, and the
/// table maps it back to the same position.
pub proof fn lemma_slot(p: Position)
    ensures
        0 <= p.index() < 64,
        Position::of_slot(p.index()) == p,
{
}

/// Distinct positions occupy distinct slots.
pub proof fn lemma_slot_injective(p: Position, q: Position)
    ensures
        p != q ==> p.index() != q.index(),
{
    lemma_slot(p);
    lemma_slot(q);
}

impl Board {
    /// The squares, slot by slot.
    pub closed spec fn cells(&self) -> Seq<Square> {
        self.squares@
    }

    /// Whose turn it is, or how the game ended.
    pub closed spec fn turn_state(&self) -> BoardState {
        self.state
    }

    /// All 64 squares are present, each in its own slot, and every occupant
    /// records the position of the square it stands on.
    pub open spec fn wf(&self) -> bool {
        &&& self.cells().len() == 64
        &&& forall|i: int|
            0 <= i < 64 ==> {
                let sq = #[trigger] self.cells()[i];
                &&& sq.position == Position::of_slot(i)
                &&& (sq.troop matches Some(t) ==> t.position == sq.position)
            }
    }

    /// The occupant of `p`.
    pub open spec fn at(&self, p: Position) -> Option<Troop> {
        self.cells()[p.index()].troop
    }

    /// The table with the square at `p` holding `troop`.
    pub open spec fn put(&self, p: Position, troop: Option<Troop>) -> Seq<Square> {
        self.cells().update(p.index(), Square { troop, position: p })
    }

    /// The standard opening setup with White to move.
    pub open spec fn is_standard(&self) -> bool {
        &&& self.wf()
        &&& self.turn_state() == BoardState::ToMove(Color::White)
        &&& forall|p: Position| #[trigger] self.at(p) == standard_troop(p)
    }
}

/// The slot of `p` in the table.
fn slot(p: Position) -> (i: usize)
    ensures
        i as int == p.index(),
        i < 64,
{
    proof {
        lemma_slot(p);
    }
    (p.file.ordinal() as usize) * 8 + p.rank.ordinal() as usize
}

fn file_of_ordinal(i: u8) -> (f: File)
    requires
        i < 8,
    ensures
        f == File::at_index(i as int),
{
    match i {
        0 => File::A,
        1 => File::B,
        2 => File::C,
        3 => File::D,
        4 => File::E,
        5 => File::F,
        6 => File::G,
        _ => File::H,
    }
}

fn rank_of_ordinal(i: u8) -> (r: Rank)
    requires
        i < 8,
    ensures
        r == Rank::at_index(i as int),
{
    match i {
        0 => Rank::One,
        1 => Rank::Two,
        2 => Rank::Three,
        3 => Rank::Four,
        4 => Rank::Five,
        5 => Rank::Six,
        6 => Rank::Seven,
        _ => Rank::Eight,
    }
}

/// The position with zero-based file `f` and rank `r`.
pub(crate) fn position_at(f: u8, r: u8) -> (p: Position)
    requires
        f < 8,
        r < 8,
    ensures
        p == Position::at(f as int, r as int),
        p.file.index() == f,
        p.rank.index() == r,
{
    Position { file: file_of_ordinal(f), rank: rank_of_ordinal(r) }
}

fn back_rank_piece_of(file: File) -> (piece: Piece)
    ensures
        piece == back_rank_piece(file),
{
    match file {
        File::A | File::H => Piece::Rook,
        File::B | File::G => Piece::Knight,
        File::C | File::F => Piece::Bishop,
        File::D => Piece::Queen,
        File::E => Piece::King,
    }
}

fn standard_troop_of(p: Position) -> (t: Option<Troop>)
    ensures
        t == standard_troop(p),
{
    match p.rank {
        Rank::Two => Some(Troop { piece: Piece::Pawn, color: Color::White, position: p }),
        Rank::Seven => Some(Troop { piece: Piece::Pawn, color: Color::Black, position: p }),
        Rank::One => Some(Troop { piece: back_rank_piece_of(p.file), color: Color::White, position: p }),
        Rank::Eight => Some(Troop { piece: back_rank_piece_of(p.file), color: Color::Black, position: p }),
        _ => None,
    }
}

impl Default for Board {
    fn default() -> (b: Self)
        ensures
            b.is_standard(),
    {
        let mut squares: Vec<Square> = Vec::new();
        let mut f: u8 = 0;
        while f < 8
            invariant
                f <= 8,
                squares@.len() == 8 * f,
                forall|i: int|
                    0 <= i < squares@.len() ==> #[trigger] squares@[i] == (Square {
                        troop: standard_troop(Position::of_slot(i)),
                        position: Position::of_slot(i),
                    }),
            decreases 8 - f,
        {
            let mut r: u8 = 0;
            while r < 8
                invariant
                    f < 8,
                    r <= 8,
                    squares@.len() == 8 * f + r,
                    forall|i: int|
                        0 <= i < squares@.len() ==> #[trigger] squares@[i] == (Square {
                            troop: standard_troop(Position::of_slot(i)),
                            position: Position::of_slot(i),
                        }),
                decreases 8 - r,
            {
                let position = position_at(f, r);
                proof {
                    lemma_slot(position);
                }
                squares.push(Square { troop: standard_troop_of(position), position });
                r = r + 1;
            }
            f = f + 1;
        }
        let b = Board { squares, state: BoardState::ToMove(Color::White) };
        assert forall|p: Position| #[trigger] b.at(p) == standard_troop(p) by {
            lemma_slot(p);
        }
        b
    }
}

impl Board {
    /// The square at `position`.
    pub fn square(&self, position: Position) -> (sq: &Square)
        requires
            self.wf(),
        ensures
            *sq == self.cells()[position.index()],
            sq.position == position,
            sq.troop == self.at(position),
    {
        proof {
            lemma_slot(position);
        }
        &self.squares[slot(position)]
    }

    /// Whose turn it is, or how the game ended.
    pub fn state(&self) -> (s: BoardState)
        ensures
            s == self.turn_state(),
    {
        self.state
    }

    /// Replaces the whole board by the standard setup.
    pub fn reset(&mut self)
        ensures
            final(self).is_standard(),
    {
        *self = Self::default();
    }

    /// Takes the occupant off `position`, if there is one.
    pub fn remove_troop(&mut self, position: Position) -> (r: Option<Troop>)
        requires
            old(self).wf(),
        ensures
            final(self).wf(),
            r == old(self).at(position),
            final(self).cells() == old(self).put(position, None),
            final(self).turn_state() == old(self).turn_state(),
    {
        proof {
            lemma_slot(position);
        }
        let i = slot(position);
        let taken = self.squares[i].troop;
        self.squares[i].troop = None;
        taken
    }

    /// Puts `troop` on the square its `position` names, unless that square
    /// is taken, in which case nothing changes.
    pub fn place_troop(&mut self, troop: Troop) -> (r: Result<(), SquareOccupied>)
        requires
            old(self).wf(),
        ensures
            final(self).wf(),
            final(self).turn_state() == old(self).turn_state(),
            old(self).at(troop.position) is Some ==> r == Err::<(), SquareOccupied>(SquareOccupied)
                && final(self).cells() == old(self).cells(),
            old(self).at(troop.position) is None ==> r is Ok && final(self).cells() == old(
                self,
            ).put(troop.position, Some(troop)),
    {
        proof {
            lemma_slot(troop.position);
        }
        let i = slot(troop.position);
        if self.squares[i].troop.is_some() {
            return Err(SquareOccupied);
        }
        self.squares[i].troop = Some(troop);
        Ok(())
    }

    /// Puts a troop of `troop`'s piece and color on `position`, whatever stood
    /// there, and hands back what did. The troop placed records `position`.
    pub fn replace_troop(&mut self, position: Position, troop: Troop) -> (r: Option<Troop>)
        requires
            old(self).wf(),
        ensures
            final(self).wf(),
            r == old(self).at(position),
            final(self).cells() == old(self).put(
                position,
                Some(Troop { piece: troop.piece, color: troop.color, position }),
            ),
            final(self).turn_state() == old(self).turn_state(),
    {
        proof {
            lemma_slot(position);
        }
        let i = slot(position);
        let displaced = self.squares[i].troop;
        self.squares[i].troop = Some(Troop { piece: troop.piece, color: troop.color, position });
        displaced
    }

    /// Sets the game state, bypassing every rule.
    pub fn set_state(&mut self, state: BoardState)
        requires
            old(self).wf(),
        ensures
            final(self).wf(),
            final(self).cells() == old(self).cells(),
            final(self).turn_state() == state,
    {
        self.state = state;
    }
}

/// The character that shows an occupant (or its absence) in a rendering.
pub open spec fn glyph(t: Option<Troop>) -> char {
    match t {
        None => '.',
        Some(t) => match (t.color, t.piece) {
            (Color::White, Piece::Pawn) => '\u{2659}',
            (Color::White, Piece::Knight) => '\u{2658}',
            (Color::White, Piece::Bishop) => '\u{2657}',
            (Color::White, Piece::Rook) => '\u{2656}',
            (Color::White, Piece::Queen) => '\u{2655}',
            (Color::White, Piece::King) => '\u{2654}',
            (Color::Black, Piece::Pawn) => '\u{265F}',
            (Color::Black, Piece::Knight) => '\u{265E}',
            (Color::Black, Piece::Bishop) => '\u{265D}',
            (Color::Black, Piece::Rook) => '\u{265C}',
            (Color::Black, Piece::Queen) => '\u{265B}',
            (Color::Black, Piece::King) => '\u{265A}',
        },
    }
}

/// Eight lines of eight glyphs, rank 1 first, files `A` to `H` left to
/// right, each line ended by a newline.
pub open spec fn rendering(b: &Board) -> Seq<char> {
    Seq::new(72, |i: int| if i % 9 == 8 { '\n' } else { glyph(b.at(Position::at(i % 9, i / 9))) })
}

fn glyph_of(t: Option<Troop>) -> (c: char)
    ensures
        c == glyph(t),
{
    match t {
        None => '.',
        Some(t) => match (t.color, t.piece) {
            (Color::White, Piece::Pawn) => '\u{2659}',
            (Color::White, Piece::Knight) => '\u{2658}',
            (Color::White, Piece::Bishop) => '\u{2657}',
            (Color::White, Piece::Rook) => '\u{2656}',
            (Color::White, Piece::Queen) => '\u{2655}',
            (Color::White, Piece::King) => '\u{2654}',
            (Color::Black, Piece::Pawn) => '\u{265F}',
            (Color::Black, Piece::Knight) => '\u{265E}',
            (Color::Black, Piece::Bishop) => '\u{265D}',
            (Color::Black, Piece::Rook) => '\u{265C}',
            (Color::Black, Piece::Queen) => '\u{265B}',
            (Color::Black, Piece::King) => '\u{265A}',
        },
    }
}

/// Relies on `String::push`: appends `c` to the end of `s`.
#[verifier::external_body]
fn push_char(s: &mut String, c: char)
    ensures
        final(s)@ == old(s)@.push(c),
{
    s.push(c)
}

impl Board {
    /// A text picture of the board, one line per rank.
    pub fn render(&self) -> (text: String)
        requires
            self.wf(),
        ensures
            text@ == rendering(self),
    {
        let mut text = String::new();
        let mut r: u8 = 0;
        while r < 8
            invariant
                self.wf(),
                r <= 8,
                text@ == rendering(self).take(9 * r),
            decreases 8 - r,
        {
            let mut f: u8 = 0;
            while f < 8
                invariant
                    self.wf(),
                    r < 8,
                    f <= 8,
                    text@ == rendering(self).take(9 * r + f),
                decreases 8 - f,
            {
                let c = glyph_of(self.square(position_at(f, r)).troop);
                push_char(&mut text, c);
                assert(text@ =~= rendering(self).take(9 * r + f + 1));
                f = f + 1;
            }
            push_char(&mut text, '\n');
            assert(text@ =~= rendering(self).take(9 * r + 9));
            r = r + 1;
        }
        assert(text@ =~= rendering(self));
        text
    }
}

} // verus!
