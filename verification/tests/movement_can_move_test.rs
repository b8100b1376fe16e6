use tetris_core::components::{Piece, Position};
use tetris_core::game_color::GameColor;
use tetris_core::game_constants::{NUM_BLOCKS_X, NUM_BLOCKS_Y};
use tetris_core::game_types::{GameMap, PieceType, Presence};
use tetris_core::resources::{Level, Score};
use tetris_core::session::{ActivePiece, GameSession};
use tetris_core::state::GameState;
use tetris_core::systems::movement::{
    can_move, descend, land_piece, lock_piece, move_piece_down, move_piece_down_with,
};

fn square() -> Piece {
    Piece { states: [1632, 1632, 1632, 1632], color: GameColor::Yellow, current_state: 0 }
}

fn session_with(piece: Piece, x: isize, y: isize) -> GameSession {
    GameSession {
        game_map: GameMap::default(),
        active: Some(ActivePiece { piece, position: Position { x, y } }),
        score: Score::default(),
        level: Level::default(),
        state: GameState::Playing,
    }
}

#[test]
fn can_move_false_at_bottom() {
    let piece = Piece { states: [1632, 1632, 1632, 1632], color: GameColor::Yellow, current_state: 0 };
    let pos = Position { x: 0, y: (NUM_BLOCKS_Y - 1) as isize };
    let game_map = GameMap::default();
    assert!(!can_move(&piece, &pos, pos.y + 1, &game_map));
}

#[test]
fn move_piece_down_stops_and_writes_on_land() {
    // a square near the bottom
    let piece = Piece { states: [1632, 1632, 1632, 1632], color: GameColor::Yellow, current_state: 0 };
    let pos = Position { x: 0, y: (NUM_BLOCKS_Y - 2) as isize };
    let mut session = GameSession {
        game_map: GameMap::default(),
        active: Some(ActivePiece { piece, position: pos }),
        score: Score::default(),
        level: Level::default(),
        state: GameState::Playing,
    };
    assert!(session.can_step());

    // first step: should land, and the piece is gone
    move_piece_down(&mut session);
    match session.active {
        Some(a) => assert!(a.position != pos),
        None => assert_eq!(session.state, GameState::GameOver),
    }

    // ensure something is written on bottom row
    let gm = &session.game_map;
    let bottom_has_any = gm.0[NUM_BLOCKS_Y - 1].iter().any(|p| matches!(p, Presence::Yes(_)));
    assert!(bottom_has_any);
}

#[test]
fn can_move_is_false_at_the_floor_row_and_beyond() {
    let game_map = GameMap::default();
    for index in 0..7 {
        let mut piece = Piece::from(tetris_core::components::piece_type_at(index));
        for state in 0..4 {
            piece.current_state = state;
            for x in -3..(NUM_BLOCKS_X as isize) {
                let pos = Position { x, y: 0 };
                assert!(!can_move(&piece, &pos, NUM_BLOCKS_Y as isize, &game_map));
                assert!(!can_move(&piece, &pos, NUM_BLOCKS_Y as isize + 5, &game_map));
                assert!(!can_move(&piece, &pos, isize::MAX, &game_map));
            }
        }
    }
}

#[test]
fn can_move_allows_rows_above_the_top_and_columns_beside_the_board() {
    let game_map = GameMap::default();
    let piece = square();
    assert!(can_move(&piece, &Position { x: 4, y: 0 }, -3, &game_map));
    assert!(can_move(&piece, &Position { x: 4, y: 0 }, isize::MIN, &game_map));
    assert!(can_move(&piece, &Position { x: -7, y: 0 }, 3, &game_map));
    assert!(can_move(&piece, &Position { x: isize::MAX, y: 0 }, 3, &game_map));
    // the square's lowest blocks are in the third row of its box
    assert!(can_move(&piece, &Position { x: 4, y: 0 }, 15, &game_map));
    assert!(!can_move(&piece, &Position { x: 4, y: 0 }, 16, &game_map));
}

#[test]
fn can_move_is_blocked_by_a_filled_cell() {
    let mut game_map = GameMap::default();
    game_map.set(5, 10, GameColor::Red);
    let piece = square();
    // blocks at columns 5 and 6, rows new_y + 1 and new_y + 2
    assert!(can_move(&piece, &Position { x: 4, y: 0 }, 7, &game_map));
    assert!(!can_move(&piece, &Position { x: 4, y: 0 }, 8, &game_map));
    assert!(!can_move(&piece, &Position { x: 4, y: 0 }, 9, &game_map));
    assert!(can_move(&piece, &Position { x: 4, y: 0 }, 10, &game_map));
    assert!(can_move(&piece, &Position { x: 5, y: 0 }, 9, &game_map));
    assert!(!can_move(&piece, &Position { x: 3, y: 0 }, 9, &game_map));
    assert!(can_move(&piece, &Position { x: 2, y: 0 }, 9, &game_map));
}

#[test]
fn lock_writes_the_blocks_in_the_piece_colour() {
    let mut game_map = GameMap::default();
    game_map.set(0, 0, GameColor::Red);
    lock_piece(&mut game_map, &square(), &Position { x: 4, y: 15 });
    assert!(game_map.is_well_formed());
    for y in 0..NUM_BLOCKS_Y {
        for x in 0..NUM_BLOCKS_X {
            let expected = if (y == 16 || y == 17) && (x == 5 || x == 6) {
                Presence::Yes(GameColor::Yellow)
            } else if x == 0 && y == 0 {
                Presence::Yes(GameColor::Red)
            } else {
                Presence::No
            };
            assert_eq!(game_map.cell(x, y), expected);
        }
    }
}

#[test]
fn lock_drops_the_blocks_that_lie_off_the_board() {
    let mut game_map = GameMap::default();
    lock_piece(&mut game_map, &square(), &Position { x: -2, y: -2 });
    lock_piece(&mut game_map, &square(), &Position { x: 8, y: 16 });
    for y in 0..NUM_BLOCKS_Y {
        for x in 0..NUM_BLOCKS_X {
            let expected = if (x == 0 && y == 0) || (x == 9 && y == 17) {
                Presence::Yes(GameColor::Yellow)
            } else {
                Presence::No
            };
            assert_eq!(game_map.cell(x, y), expected);
        }
    }
}

#[test]
fn descend_moves_one_row_or_reports_the_landing() {
    let mut session = session_with(square(), 4, 14);
    assert!(descend(&mut session));
    assert_eq!(session.active.unwrap().position, Position { x: 4, y: 15 });
    assert!(!descend(&mut session));
    assert_eq!(session.active.unwrap().position, Position { x: 4, y: 15 });
    session.active = None;
    assert!(descend(&mut session));
    assert!(session.active.is_none());
}

#[test]
fn gravity_lands_the_piece_and_spawns_the_next() {
    let mut session = session_with(square(), 4, 15);
    let next = Piece::from(PieceType::T);
    move_piece_down_with(&mut session, next);
    let active = session.active.unwrap();
    assert_eq!(active.position, Position { x: 4, y: 0 });
    assert_eq!(active.piece.states, next.states);
    assert_eq!(active.piece.color, GameColor::Purple);
    assert_eq!(session.state, GameState::Playing);
    assert_eq!(session.score.value, 0);
    assert_eq!(session.game_map.cell(5, 16), Presence::Yes(GameColor::Yellow));
    assert_eq!(session.game_map.cell(6, 16), Presence::Yes(GameColor::Yellow));
    assert_eq!(session.game_map.cell(5, 17), Presence::Yes(GameColor::Yellow));
    assert_eq!(session.game_map.cell(6, 17), Presence::Yes(GameColor::Yellow));
    assert_eq!(session.game_map.cell(4, 17), Presence::No);
}

#[test]
fn gravity_without_a_piece_changes_nothing() {
    let mut session = GameSession::new();
    move_piece_down_with(&mut session, Piece::from(PieceType::I));
    assert!(session.active.is_none());
    assert_eq!(session.state, GameState::Playing);
    assert_eq!(session.score.value, 0);
    move_piece_down(&mut session);
    assert!(session.active.is_none());
}

#[test]
fn landing_clears_the_rows_it_completes() {
    let mut session = session_with(square(), 4, 15);
    for y in 16..NUM_BLOCKS_Y {
        for x in 0..NUM_BLOCKS_X {
            if x != 5 && x != 6 {
                session.game_map.set(x, y, GameColor::Blue);
            }
        }
    }
    session.game_map.set(0, 15, GameColor::Green);
    session.level.lines_cleared_in_level = 8;
    land_piece(&mut session, Piece::from(PieceType::L));
    assert_eq!(session.score.value, 200);
    assert_eq!(session.level.value, 1);
    assert_eq!(session.level.lines_cleared_in_level, 0);
    assert_eq!(session.game_map.height(), NUM_BLOCKS_Y);
    for y in 0..NUM_BLOCKS_Y {
        for x in 0..NUM_BLOCKS_X {
            let expected =
                if x == 0 && y == 17 { Presence::Yes(GameColor::Green) } else { Presence::No };
            assert_eq!(session.game_map.cell(x, y), expected);
        }
    }
    assert_eq!(session.active.unwrap().position, Position { x: 4, y: 0 });
}
