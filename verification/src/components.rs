use crate::game_color::GameColor;
use crate::game_types::PieceType;
use rand::Rng;
use vstd::prelude::*;
use vstd::std_specs::convert::FromSpecImpl;

verus! {

/// A piece: its four rotation masks, its colour and the rotation it is in.
#[derive(Debug, Copy, Clone)]
pub struct Piece {
    pub states: [u16; 4],
    pub color: GameColor,
    pub current_state: usize,
}

/// The board coordinates of the top-left corner of a piece's 4×4 box.
#[derive(Debug, Copy, Clone, PartialEq, Eq, Structural)]
pub struct Position {
    pub x: isize,
    pub y: isize,
}

/// Number of shapes in the catalogue.
pub const NUM_PIECE_TYPES: u32 = 7;

/// The four rotation masks of a shape.
pub open spec fn catalog_states(piece_type: PieceType) -> [u16; 4] {
    match piece_type {
        PieceType::L => [17504u16, 1856u16, 1570u16, 736u16],
        PieceType::J => [8800u16, 1136u16, 1604u16, 3616u16],
        PieceType::S => [17952u16, 1728u16, 17952u16, 1728u16],
        PieceType::Z => [9792u16, 3168u16, 9792u16, 3168u16],
        PieceType::T => [17984u16, 3648u16, 19520u16, 19968u16],
        PieceType::I => [17476u16, 3840u16, 17476u16, 3840u16],
        PieceType::O => [1632u16, 1632u16, 1632u16, 1632u16],
    }
}

/// The colour of a shape.
pub open spec fn catalog_color(piece_type: PieceType) -> GameColor {
    match piece_type {
        PieceType::L => GameColor::Orange,
        PieceType::J => GameColor::Blue,
        PieceType::S => GameColor::Green,
        PieceType::Z => GameColor::Red,
        PieceType::T => GameColor::Purple,
        PieceType::I => GameColor::Cyan,
        PieceType::O => GameColor::Yellow,
    }
}

/// The catalogue's piece of a shape, in its first rotation.
pub open spec fn catalog_piece(piece_type: PieceType) -> Piece {
    Piece {
        states: catalog_states(piece_type),
        color: catalog_color(piece_type),
        current_state: 0,
    }
}

/// The shape that stands at a place of the catalogue; places from 6 on all
/// hold the last shape.
pub open spec fn spec_piece_type_at(index: u32) -> PieceType {
    if index == 0 {
        PieceType::L
    } else if index == 1 {
        PieceType::J
    } else if index == 2 {
        PieceType::S
    } else if index == 3 {
        PieceType::Z
    } else if index == 4 {
        PieceType::T
    } else if index == 5 {
        PieceType::I
    } else {
        PieceType::O
    }
}

/// The shape that stands at a place of the catalogue.
pub fn piece_type_at(index: u32) -> (piece_type: PieceType)
    ensures
        piece_type == spec_piece_type_at(index),
{
    match index {
        0 => PieceType::L,
        1 => PieceType::J,
        2 => PieceType::S,
        3 => PieceType::Z,
        4 => PieceType::T,
        5 => PieceType::I,
        _ => PieceType::O,
    }
}

/// Draws a number below `bound` from `rand`'s thread-local generator, by
/// `rand::rng()` and `Rng::random_range` on the range `0..bound`. The
/// contract claims only what holds of every draw: the number lies in the
/// range. `random_range` panics on an empty range, which `bound > 0` rules
/// out. The generator seeds itself from the operating system when a thread
/// first uses it, and panics if the system has no randomness to give.
#[verifier::external_body]
fn random_below(bound: u32) -> (n: u32)
    requires
        bound > 0,
    ensures
        n < bound,
{
    rand::rng().random_range(0..bound)
}

impl Piece {
    /// The rotation index names one of the four masks.
    pub open spec fn well_formed(&self) -> bool {
        self.current_state < 4
    }

    /// The mask of the rotation the piece is in.
    pub open spec fn current_mask(&self) -> u16 {
        self.states[self.current_state as int]
    }

    /// Every rotation of the piece occupies at least one cell.
    pub open spec fn is_solid(&self) -> bool {
        forall|r: int| 0 <= r < 4 ==> #[trigger] self.states[r] != 0
    }

    /// The piece is one of the catalogue, in its first rotation.
    pub open spec fn in_catalog(&self) -> bool {
        exists|piece_type: PieceType| *self == catalog_piece(piece_type)
    }

    /// The same piece in another rotation.
    pub open spec fn with_state(self, state: usize) -> Piece {
        Piece { current_state: state, ..self }
    }

    /// Tells whether the piece can fall in a session: its rotation index
    /// names a mask and each of its rotations occupies a cell.
    pub fn is_usable(&self) -> (ok: bool)
        ensures
            ok == (self.well_formed() && self.is_solid()),
    {
        self.current_state < 4 && self.states[0] != 0 && self.states[1] != 0 && self.states[2] != 0
            && self.states[3] != 0
    }

    /// Picks one of the seven shapes of the catalogue by chance, each draw
    /// independent of the others.
    pub fn random() -> (piece: Piece)
        ensures
            piece.in_catalog(),
    {
        let index = random_below(NUM_PIECE_TYPES);
        Piece::from(piece_type_at(index))
    }
}

impl Default for Piece {
    /// A piece without cells: all four masks are zero.
    fn default() -> (piece: Piece)
        ensures
            piece.states@ == seq![0u16, 0u16, 0u16, 0u16],
            piece.color == GameColor::Gray,
            piece.current_state == 0,
    {
        Piece { states: [0, 0, 0, 0], color: GameColor::Gray, current_state: 0 }
    }
}

impl Default for Position {
    fn default() -> (position: Position)
        ensures
            position.x == 0,
            position.y == 0,
    {
        Position { x: 0, y: 0 }
    }
}

impl FromSpecImpl<PieceType> for Piece {
    open spec fn obeys_from_spec() -> bool {
        true
    }

    open spec fn from_spec(piece_type: PieceType) -> Piece {
        catalog_piece(piece_type)
    }
}

impl From<PieceType> for Piece {
    /// The catalogue's piece of a shape, in its first rotation.
    fn from(piece_type: PieceType) -> (piece: Piece) {
        match piece_type {
            PieceType::L => Piece {
                states: [17504, 1856, 1570, 736],
                color: GameColor::Orange,
                current_state: 0,
            },
            PieceType::J => Piece {
                states: [8800, 1136, 1604, 3616],
                color: GameColor::Blue,
                current_state: 0,
            },
            PieceType::S => Piece {
                states: [17952, 1728, 17952, 1728],
                color: GameColor::Green,
                current_state: 0,
            },
            PieceType::Z => Piece {
                states: [9792, 3168, 9792, 3168],
                color: GameColor::Red,
                current_state: 0,
            },
            PieceType::T => Piece {
                states: [17984, 3648, 19520, 19968],
                color: GameColor::Purple,
                current_state: 0,
            },
            PieceType::I => Piece {
                states: [17476, 3840, 17476, 3840],
                color: GameColor::Cyan,
                current_state: 0,
            },
            PieceType::O => Piece {
                states: [1632, 1632, 1632, 1632],
                color: GameColor::Yellow,
                current_state: 0,
            },
        }
    }
}

/// Every piece of the catalogue is well formed and occupies at least one
/// cell in each of its rotations.
pub proof fn lemma_catalog_pieces_are_solid(piece_type: PieceType)
    ensures
        catalog_piece(piece_type).well_formed(),
        catalog_piece(piece_type).is_solid(),
{
}

} // verus!
