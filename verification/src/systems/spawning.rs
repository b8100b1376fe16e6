use crate::components::{Piece, Position};
use crate::game_constants::NUM_BLOCKS_X;
use crate::session::{ActivePiece, GameSession};
use crate::state::GameState;
use crate::systems::movement::can_move;
use vstd::prelude::*;

verus! {

/// Puts `next` at the spawn position, in the middle of the top row. Where
/// it cannot stand there, no piece is created and the game is over.
pub fn spawn_piece_with(session: &mut GameSession, next: Piece)
    requires
        old(session).well_formed(),
        next.well_formed(),
        next.is_solid(),
    ensures
        final(session)@ == old(session)@.spawned(next),
        final(session).well_formed(),
{
    let initial_position = Position { x: NUM_BLOCKS_X as isize / 2 - 1, y: 0 };

    if can_move(&next, &initial_position, initial_position.y, &session.game_map) {
        session.active = Some(ActivePiece { piece: next, position: initial_position });
    } else {
        session.state = GameState::GameOver;
    }
}

/// Spawns a piece of the catalogue that is picked by chance.
pub fn spawn_piece(session: &mut GameSession)
    requires
        old(session).well_formed(),
    ensures
        exists|next: Piece| next.in_catalog() && final(session)@ == old(session)@.spawned(next),
        final(session).well_formed(),
{
    let next = Piece::random();
    spawn_piece_with(session, next);
}

/// Spawns the first piece of a game.
pub fn spawn_initial_piece(session: &mut GameSession)
    requires
        old(session).well_formed(),
    ensures
        exists|next: Piece| next.in_catalog() && final(session)@ == old(session)@.spawned(next),
        final(session).well_formed(),
{
    spawn_piece(session);
}

} // verus!
