use tetris_core::components::{piece_type_at, Piece, Position};
use tetris_core::game_color::GameColor;
use tetris_core::game_types::{PieceType, Presence};
use tetris_core::piece_utils::get_block_matrix;

#[test]
fn get_block_matrix_sets_presence_bits() {
    // 'O' piece block (2x2) states use 1632
    let matrix = get_block_matrix(1632, GameColor::Yellow);
    // Count Presence::Yes
    let mut count = 0;
    for row in matrix.iter() {
        for cell in row.iter() {
            if matches!(cell, Presence::Yes(_)) {
                count += 1;
            }
        }
    }
    assert!(count >= 4); // at least 2x2
}

#[test]
fn square_mask_expands_to_the_middle_of_the_box() {
    let matrix = get_block_matrix(1632, GameColor::Yellow);
    for row in 0..4 {
        for col in 0..4 {
            let inside = (row == 1 || row == 2) && (col == 1 || col == 2);
            let expected = if inside { Presence::Yes(GameColor::Yellow) } else { Presence::No };
            assert_eq!(matrix[row][col], expected);
        }
    }
}

#[test]
fn highest_bit_is_the_top_left_cell() {
    let matrix = get_block_matrix(0x8000, GameColor::Red);
    for row in 0..4 {
        for col in 0..4 {
            let expected =
                if row == 0 && col == 0 { Presence::Yes(GameColor::Red) } else { Presence::No };
            assert_eq!(matrix[row][col], expected);
        }
    }
}

#[test]
fn lowest_bit_is_the_bottom_right_cell() {
    let matrix = get_block_matrix(1, GameColor::Blue);
    for row in 0..4 {
        for col in 0..4 {
            let expected =
                if row == 3 && col == 3 { Presence::Yes(GameColor::Blue) } else { Presence::No };
            assert_eq!(matrix[row][col], expected);
        }
    }
}

#[test]
fn bits_are_read_row_by_row() {
    // 0x0F00 is the second row of the box, 0x4444 its second column.
    let row = get_block_matrix(0x0F00, GameColor::Cyan);
    let column = get_block_matrix(0x4444, GameColor::Cyan);
    for r in 0..4 {
        for c in 0..4 {
            assert_eq!(matches!(row[r][c], Presence::Yes(_)), r == 1);
            assert_eq!(matches!(column[r][c], Presence::Yes(_)), c == 1);
        }
    }
}

#[test]
fn empty_and_full_masks() {
    let none = get_block_matrix(0, GameColor::Green);
    let all = get_block_matrix(0xFFFF, GameColor::Green);
    for r in 0..4 {
        for c in 0..4 {
            assert_eq!(none[r][c], Presence::No);
            assert_eq!(all[r][c], Presence::Yes(GameColor::Green));
        }
    }
}

#[test]
fn catalog_holds_the_seven_shapes() {
    let expected: [(PieceType, [u16; 4], GameColor); 7] = [
        (PieceType::L, [17504, 1856, 1570, 736], GameColor::Orange),
        (PieceType::J, [8800, 1136, 1604, 3616], GameColor::Blue),
        (PieceType::S, [17952, 1728, 17952, 1728], GameColor::Green),
        (PieceType::Z, [9792, 3168, 9792, 3168], GameColor::Red),
        (PieceType::T, [17984, 3648, 19520, 19968], GameColor::Purple),
        (PieceType::I, [17476, 3840, 17476, 3840], GameColor::Cyan),
        (PieceType::O, [1632, 1632, 1632, 1632], GameColor::Yellow),
    ];
    for (index, (piece_type, states, color)) in expected.iter().enumerate() {
        let piece = Piece::from(*piece_type);
        assert_eq!(piece.states, *states);
        assert_eq!(piece.color, *color);
        assert_eq!(piece.current_state, 0);
        assert!(piece.is_usable());
        assert_eq!(piece_type_at(index as u32), *piece_type);
    }
    assert_eq!(piece_type_at(7), PieceType::O);
    assert_eq!(piece_type_at(u32::MAX), PieceType::O);
}

#[test]
fn every_catalog_rotation_has_four_blocks() {
    for index in 0..7 {
        let piece = Piece::from(piece_type_at(index));
        for state in piece.states.iter() {
            let matrix = get_block_matrix(*state, piece.color);
            let mut count = 0;
            for row in matrix.iter() {
                for cell in row.iter() {
                    if *cell == Presence::Yes(piece.color) {
                        count += 1;
                    }
                }
            }
            assert_eq!(count, 4);
        }
    }
}

#[test]
fn random_pieces_come_from_the_catalog_and_vary() {
    let mut seen_other_than_square = false;
    for _ in 0..2000 {
        let piece = Piece::random();
        let mut found = false;
        for index in 0..7 {
            let entry = Piece::from(piece_type_at(index));
            if entry.states == piece.states && entry.color == piece.color {
                found = true;
            }
        }
        assert!(found);
        assert_eq!(piece.current_state, 0);
        if piece.states != [1632, 1632, 1632, 1632] {
            seen_other_than_square = true;
        }
    }
    assert!(seen_other_than_square);
}

#[test]
fn default_piece_and_position() {
    let piece = Piece::default();
    assert_eq!(piece.states, [0, 0, 0, 0]);
    assert_eq!(piece.current_state, 0);
    assert!(!piece.is_usable());
    assert_eq!(Position::default(), Position { x: 0, y: 0 });
}
