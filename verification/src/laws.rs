use crate::components::Piece;
use crate::game_constants::{NUM_BLOCKS_Y, POINTS_PER_LINE};
use crate::session::{KeyPresses, SessionView};
use crate::state::GameState;
use crate::systems::input::lemma_drop_scores_rows_fallen;
use crate::systems::lines::{lemma_cleared_keeps_shape, lemma_kept_and_full, spec_full_count};
use vstd::prelude::*;

verus! {

/// Landing keeps the number of rows of the board, never lowers the score,
/// adds the points of each row that the landing piece completed
/// and leaves a game that is over as it is.
pub proof fn lemma_landing(session: SessionView, next: Piece)
    requires
        session.well_formed(),
        session.has_headroom(),
    ensures
        session.landed(next).rows.len() == NUM_BLOCKS_Y,
        session.landed(next).score.value == session.score.value + POINTS_PER_LINE * spec_full_count(
            session.locked().rows,
        ),
        session.state == GameState::GameOver ==> session.landed(next).state
            == GameState::GameOver,
{
    let locked = session.locked();
    lemma_kept_and_full(locked.rows);
    lemma_cleared_keeps_shape(locked.rows);
}

/// A game that is over stays over, and the score never falls: whatever keys
/// are pressed and whatever piece comes next.
pub proof fn lemma_keys_keep_game_over_and_score(
    session: SessionView,
    keys: KeyPresses,
    next: Piece,
)
    requires
        session.well_formed(),
        session.has_headroom(),
    ensures
        session.state == GameState::GameOver ==> session.after_keys(keys, next).state
            == GameState::GameOver,
        session.after_keys(keys, next).score.value >= session.score.value,
        session.after_keys(keys, next).rows.len() == NUM_BLOCKS_Y,
{
    let a = if keys.left {
        session.shifted(-1)
    } else {
        session
    };
    let b = if keys.right {
        a.shifted(1)
    } else {
        a
    };
    assert(b.well_formed() && b.has_headroom() && b.score == session.score && b.state
        == session.state);
    if b.active is Some {
        if keys.down && !b.can_descend() {
            lemma_landing(b, next);
        } else {
            let c = if keys.down {
                b.descended()
            } else {
                b
            };
            if keys.down {
                crate::systems::movement::lemma_can_move_is_above_floor(
                    b.active.unwrap().piece,
                    b.active.unwrap().position,
                    b.active.unwrap().position.y + 1,
                    b.rows,
                );
            }
            assert(c.well_formed() && c.has_headroom() && c.score == session.score);
            if keys.space {
                lemma_drop_scores_rows_fallen(c);
                lemma_landing(c.dropped(), next);
            }
        }
    }
}

/// A game that is over stays over, and the score never falls, under a step
/// of gravity.
pub proof fn lemma_gravity_keeps_game_over_and_score(session: SessionView, next: Piece)
    requires
        session.well_formed(),
        session.has_headroom(),
    ensures
        session.state == GameState::GameOver ==> session.after_gravity(next).state
            == GameState::GameOver,
        session.after_gravity(next).score.value >= session.score.value,
        session.after_gravity(next).rows.len() == NUM_BLOCKS_Y,
{
    if session.active is Some && !session.can_descend() {
        lemma_landing(session, next);
    }
}

} // verus!
