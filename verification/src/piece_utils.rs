use crate::game_color::GameColor;
use crate::game_types::{PieceMatrix, Presence};
use vstd::prelude::*;

verus! {

/// Whether a rotation mask occupies the cell in row `row`, column `col` of
/// its 4×4 box. The mask is read row by row from its most significant bit:
/// bit 15 is the top-left cell, bit 0 the bottom-right one.
pub open spec fn occupied(mask: u16, row: int, col: int) -> bool {
    mask & (0x8000u16 >> ((4 * row + col) as u16)) != 0
}

/// The cell that a mask and a colour give in row `row`, column `col`.
pub open spec fn spec_matrix_cell(mask: u16, color: GameColor, row: int, col: int) -> Presence {
    if occupied(mask, row, col) {
        Presence::Yes(color)
    } else {
        Presence::No
    }
}

/// The matrix holds, cell by cell, what the mask and the colour give.
pub open spec fn is_block_matrix(matrix: PieceMatrix, mask: u16, color: GameColor) -> bool {
    forall|row: int, col: int|
        0 <= row < 4 && 0 <= col < 4 ==> #[trigger] matrix[row][col] == spec_matrix_cell(
            mask,
            color,
            row,
            col,
        )
}

fn matrix_cell(num: u16, color: GameColor, row: u16, col: u16) -> (cell: Presence)
    requires
        row < 4,
        col < 4,
    ensures
        cell == spec_matrix_cell(num, color, row as int, col as int),
{
    if num & (0x8000u16 >> (4 * row + col)) != 0 {
        Presence::Yes(color)
    } else {
        Presence::No
    }
}

fn matrix_row(num: u16, color: GameColor, row: u16) -> (cells: [Presence; 4])
    requires
        row < 4,
    ensures
        forall|col: int|
            0 <= col < 4 ==> #[trigger] cells[col] == spec_matrix_cell(num, color, row as int, col),
{
    [
        matrix_cell(num, color, row, 0),
        matrix_cell(num, color, row, 1),
        matrix_cell(num, color, row, 2),
        matrix_cell(num, color, row, 3),
    ]
}

/// Expands a rotation mask to the 4×4 matrix of cells that it stands for,
/// each occupied cell painted in `color`.
pub fn get_block_matrix(num: u16, color: GameColor) -> (res: PieceMatrix)
    ensures
        is_block_matrix(res, num, color),
{
    [
        matrix_row(num, color, 0),
        matrix_row(num, color, 1),
        matrix_row(num, color, 2),
        matrix_row(num, color, 3),
    ]
}

/// A mask that is not zero occupies at least one cell.
pub proof fn lemma_nonzero_mask_occupies(mask: u16)
    requires
        mask != 0,
    ensures
        exists|row: int, col: int| 0 <= row < 4 && 0 <= col < 4 && occupied(mask, row, col),
{
    assert(mask != 0 ==> (mask & (0x8000u16 >> 0u16) != 0 || mask & (0x8000u16 >> 1u16) != 0
        || mask & (0x8000u16 >> 2u16) != 0 || mask & (0x8000u16 >> 3u16) != 0 || mask & (0x8000u16
        >> 4u16) != 0 || mask & (0x8000u16 >> 5u16) != 0 || mask & (0x8000u16 >> 6u16) != 0 || mask
        & (0x8000u16 >> 7u16) != 0 || mask & (0x8000u16 >> 8u16) != 0 || mask & (0x8000u16 >> 9u16)
        != 0 || mask & (0x8000u16 >> 10u16) != 0 || mask & (0x8000u16 >> 11u16) != 0 || mask & (
    0x8000u16 >> 12u16) != 0 || mask & (0x8000u16 >> 13u16) != 0 || mask & (0x8000u16 >> 14u16) != 0
        || mask & (0x8000u16 >> 15u16) != 0)) by (bit_vector);
    if mask & (0x8000u16 >> 0u16) != 0 {
        assert(occupied(mask, 0, 0));
    } else if mask & (0x8000u16 >> 1u16) != 0 {
        assert(occupied(mask, 0, 1));
    } else if mask & (0x8000u16 >> 2u16) != 0 {
        assert(occupied(mask, 0, 2));
    } else if mask & (0x8000u16 >> 3u16) != 0 {
        assert(occupied(mask, 0, 3));
    } else if mask & (0x8000u16 >> 4u16) != 0 {
        assert(occupied(mask, 1, 0));
    } else if mask & (0x8000u16 >> 5u16) != 0 {
        assert(occupied(mask, 1, 1));
    } else if mask & (0x8000u16 >> 6u16) != 0 {
        assert(occupied(mask, 1, 2));
    } else if mask & (0x8000u16 >> 7u16) != 0 {
        assert(occupied(mask, 1, 3));
    } else if mask & (0x8000u16 >> 8u16) != 0 {
        assert(occupied(mask, 2, 0));
    } else if mask & (0x8000u16 >> 9u16) != 0 {
        assert(occupied(mask, 2, 1));
    } else if mask & (0x8000u16 >> 10u16) != 0 {
        assert(occupied(mask, 2, 2));
    } else if mask & (0x8000u16 >> 11u16) != 0 {
        assert(occupied(mask, 2, 3));
    } else if mask & (0x8000u16 >> 12u16) != 0 {
        assert(occupied(mask, 3, 0));
    } else if mask & (0x8000u16 >> 13u16) != 0 {
        assert(occupied(mask, 3, 1));
    } else if mask & (0x8000u16 >> 14u16) != 0 {
        assert(occupied(mask, 3, 2));
    } else {
        assert(occupied(mask, 3, 3));
    }
}

} // verus!
