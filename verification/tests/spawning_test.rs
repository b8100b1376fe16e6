use tetris_core::components::{Piece, Position};
use tetris_core::game_color::GameColor;
use tetris_core::game_types::{GameMap, PieceType, Presence};
use tetris_core::session::GameSession;
use tetris_core::state::GameState;
use tetris_core::systems::spawning::{spawn_initial_piece, spawn_piece, spawn_piece_with};

#[test]
fn spawn_piece_adds_entity_or_sets_game_over() {
    let mut session = GameSession::new();
    let before = session.active.is_some();

    spawn_piece(&mut session);

    let after = session.active.is_some();
    assert!(after >= before);
    assert!(after || session.state == GameState::GameOver);
}

#[test]
fn spawn_on_an_empty_board_puts_the_piece_in_the_middle_of_the_top() {
    let mut session = GameSession::new();
    spawn_initial_piece(&mut session);
    let active = session.active.unwrap();
    assert_eq!(active.position, Position { x: 4, y: 0 });
    assert_eq!(active.piece.current_state, 0);
    assert!(active.piece.is_usable());
    assert_eq!(session.state, GameState::Playing);
    assert!(session.can_step());
}

#[test]
fn spawn_on_filled_cells_ends_the_game() {
    let mut session = GameSession::new();
    // the square's upper blocks stand at columns 5 and 6 of row 1
    session.game_map.set(5, 1, GameColor::Red);
    session.game_map.set(6, 1, GameColor::Red);
    spawn_piece_with(&mut session, Piece::from(PieceType::O));
    assert_eq!(session.state, GameState::GameOver);
    assert!(session.active.is_none());
    assert_eq!(session.game_map.cell(5, 1), Presence::Yes(GameColor::Red));
    assert_eq!(session.game_map.cell(5, 2), Presence::No);
}

#[test]
fn spawn_beside_filled_cells_goes_on() {
    let mut session = GameSession::new();
    session.game_map.set(4, 1, GameColor::Red);
    session.game_map.set(7, 2, GameColor::Red);
    session.game_map.set(5, 3, GameColor::Red);
    session.game_map.set(5, 0, GameColor::Red);
    spawn_piece_with(&mut session, Piece::from(PieceType::O));
    assert_eq!(session.state, GameState::Playing);
    assert_eq!(session.active.unwrap().position, Position { x: 4, y: 0 });
}

#[test]
fn spawn_on_a_topped_out_board_ends_the_game_whatever_is_drawn() {
    let mut session = GameSession::new();
    for y in 0..4 {
        for x in 3..9 {
            session.game_map.set(x, y, GameColor::Gray);
        }
    }
    spawn_piece(&mut session);
    assert_eq!(session.state, GameState::GameOver);
    assert!(session.active.is_none());
}

#[test]
fn new_session_is_empty() {
    let session = GameSession::new();
    assert!(session.can_step());
    assert_eq!(session.game_map.0, GameMap::default().0);
    assert!(session.active.is_none());
    assert_eq!(session.score.value, 0);
    assert_eq!(session.level.value, 0);
    assert_eq!(session.level.lines_cleared_in_level, 0);
    assert_eq!(session.state, GameState::Playing);
}

#[test]
fn can_step_refuses_scores_at_the_limit_and_broken_sessions() {
    let mut session = GameSession::new();
    session.score.value = u32::MAX - 1800;
    assert!(session.can_step());
    spawn_piece_with(&mut session, Piece::from(PieceType::O));
    assert!(!session.can_step());
    session.score.value = u32::MAX - 1817;
    assert!(session.can_step());
    session.level.value = u32::MAX;
    assert!(!session.can_step());
    session.level.value = 0;
    let mut active = session.active.unwrap();
    active.piece.current_state = 4;
    session.active = Some(active);
    assert!(!session.can_step());
    active.piece.current_state = 0;
    active.piece.states = [1632, 0, 1632, 1632];
    session.active = Some(active);
    assert!(!session.can_step());
    session.active = None;
    session.game_map.0.pop();
    assert!(!session.can_step());
}
