use crate::components::{catalog_piece, Piece, Position};
use crate::game_constants::{NUM_BLOCKS_X, NUM_BLOCKS_Y};
use crate::game_types::{GameMap, PieceType, Presence};
use crate::piece_utils::{get_block_matrix, is_block_matrix, occupied, spec_matrix_cell};
use crate::session::{spec_landing_row, ActivePiece, GameSession, KeyPresses, SessionView};
use crate::systems::movement::{
    can_move, descend, land_piece, lemma_cannot_move_below_floor, spec_can_move, spec_filled,
};
use vstd::prelude::*;

verus! {

/// A block of a piece that is shifted sideways may stand at `(x, y)`:
/// between the walls and not on a block of the board. Cells above the
/// board or below it are free.
pub open spec fn spec_free_for_shift(rows: Seq<Seq<Presence>>, x: int, y: int) -> bool {
    0 <= x < NUM_BLOCKS_X && !spec_filled(rows, x, y)
}

/// A block of a piece that is rotated may stand at `(x, y)`: on the board
/// and not on a block of it.
pub open spec fn spec_free_for_rotation(rows: Seq<Seq<Presence>>, x: int, y: int) -> bool {
    0 <= x < NUM_BLOCKS_X && 0 <= y < NUM_BLOCKS_Y && !spec_filled(rows, x, y)
}

/// The piece, with its box at column `new_x` and row `pos.y`, has every
/// block between the walls and on no block of the board.
pub open spec fn spec_can_move_horizontally(
    piece: Piece,
    pos: Position,
    new_x: int,
    rows: Seq<Seq<Presence>>,
) -> bool {
    forall|my: int, mx: int|
        0 <= my < 4 && 0 <= mx < 4 && #[trigger] occupied(piece.current_mask(), my, mx)
            ==> spec_free_for_shift(rows, new_x + mx, pos.y + my)
}

/// The piece, in the rotation it is given in and with its box at `pos`, has
/// every block on the board and on no block of it.
pub open spec fn spec_can_rotate(piece: Piece, pos: Position, rows: Seq<Seq<Presence>>) -> bool {
    forall|my: int, mx: int|
        0 <= my < 4 && 0 <= mx < 4 && #[trigger] occupied(piece.current_mask(), my, mx)
            ==> spec_free_for_rotation(rows, pos.x + mx, pos.y + my)
}

/// Tells whether the piece, already turned to the rotation that is asked
/// for, may stand at `current_pos`: every block of it on the board, also
/// below the top, and none on a block of the board.
pub fn can_rotate(piece: &Piece, current_pos: &Position, game_map: &GameMap) -> (ok: bool)
    requires
        piece.well_formed(),
        game_map.well_formed(),
    ensures
        ok == spec_can_rotate(*piece, *current_pos, game_map@),
{
    let ghost mask = piece.current_mask();
    let piece_matrix = get_block_matrix(piece.states[piece.current_state], piece.color);
    let mut my: usize = 0;
    while my < 4
        invariant
            my <= 4,
            game_map.well_formed(),
            mask == piece.current_mask(),
            is_block_matrix(piece_matrix, mask, piece.color),
            forall|r: int, c: int|
                0 <= r < my && 0 <= c < 4 && #[trigger] occupied(mask, r, c)
                    ==> spec_free_for_rotation(game_map@, current_pos.x + c, current_pos.y + r),
        decreases 4 - my,
    {
        let mut mx: usize = 0;
        while mx < 4
            invariant
                my < 4,
                mx <= 4,
                game_map.well_formed(),
                mask == piece.current_mask(),
                is_block_matrix(piece_matrix, mask, piece.color),
                forall|r: int, c: int|
                    0 <= r < my && 0 <= c < 4 && #[trigger] occupied(mask, r, c)
                        ==> spec_free_for_rotation(
                        game_map@,
                        current_pos.x + c,
                        current_pos.y + r,
                    ),
                forall|c: int|
                    0 <= c < mx && #[trigger] occupied(mask, my as int, c)
                        ==> spec_free_for_rotation(
                        game_map@,
                        current_pos.x + c,
                        current_pos.y + my,
                    ),
            decreases 4 - mx,
        {
            assert(piece_matrix[my as int][mx as int] == spec_matrix_cell(
                mask,
                piece.color,
                my as int,
                mx as int,
            ));
            if let Presence::Yes(_) = piece_matrix[my][mx] {
                let block_x: i128 = current_pos.x as i128 + mx as i128;
                let block_y: i128 = current_pos.y as i128 + my as i128;

                if block_x < 0 || block_x >= NUM_BLOCKS_X as i128 || block_y < 0 || block_y
                    >= NUM_BLOCKS_Y as i128 {
                    assert(occupied(mask, my as int, mx as int));
                    return false;
                }
                assert(game_map@[block_y as int].len() == NUM_BLOCKS_X);
                if let Presence::Yes(_) = game_map.0[block_y as usize][block_x as usize] {
                    assert(occupied(mask, my as int, mx as int));
                    return false;
                }
            }
            mx += 1;
        }
        my += 1;
    }
    true
}

/// Tells whether the piece may stand with its box at column `new_x` and row
/// `current_pos.y`: every block of it between the walls, none on a block of
/// the board. Blocks above the top are not objected to.
pub fn can_move_horizontally(
    piece: &Piece,
    current_pos: &Position,
    new_x: isize,
    game_map: &GameMap,
) -> (ok: bool)
    requires
        piece.well_formed(),
        game_map.well_formed(),
    ensures
        ok == spec_can_move_horizontally(*piece, *current_pos, new_x as int, game_map@),
{
    let ghost mask = piece.current_mask();
    let piece_matrix = get_block_matrix(piece.states[piece.current_state], piece.color);
    let mut my: usize = 0;
    while my < 4
        invariant
            my <= 4,
            game_map.well_formed(),
            mask == piece.current_mask(),
            is_block_matrix(piece_matrix, mask, piece.color),
            forall|r: int, c: int|
                0 <= r < my && 0 <= c < 4 && #[trigger] occupied(mask, r, c)
                    ==> spec_free_for_shift(game_map@, new_x + c, current_pos.y + r),
        decreases 4 - my,
    {
        let mut mx: usize = 0;
        while mx < 4
            invariant
                my < 4,
                mx <= 4,
                game_map.well_formed(),
                mask == piece.current_mask(),
                is_block_matrix(piece_matrix, mask, piece.color),
                forall|r: int, c: int|
                    0 <= r < my && 0 <= c < 4 && #[trigger] occupied(mask, r, c)
                        ==> spec_free_for_shift(game_map@, new_x + c, current_pos.y + r),
                forall|c: int|
                    0 <= c < mx && #[trigger] occupied(mask, my as int, c) ==> spec_free_for_shift(
                        game_map@,
                        new_x + c,
                        current_pos.y + my,
                    ),
            decreases 4 - mx,
        {
            assert(piece_matrix[my as int][mx as int] == spec_matrix_cell(
                mask,
                piece.color,
                my as int,
                mx as int,
            ));
            if let Presence::Yes(_) = piece_matrix[my][mx] {
                let block_x: i128 = new_x as i128 + mx as i128;
                let block_y: i128 = current_pos.y as i128 + my as i128;

                if block_x < 0 || block_x >= NUM_BLOCKS_X as i128 {
                    assert(occupied(mask, my as int, mx as int));
                    return false;
                }
                if block_y >= 0 && block_y < NUM_BLOCKS_Y as i128 {
                    assert(game_map@[block_y as int].len() == NUM_BLOCKS_X);
                    if let Presence::Yes(_) = game_map.0[block_y as usize][block_x as usize] {
                        assert(occupied(mask, my as int, mx as int));
                        return false;
                    }
                }
            }
            mx += 1;
        }
        my += 1;
    }
    true
}

/// Shifts the falling piece by one column, to the left or to the right,
/// where it may stand there; else nothing changes.
pub fn shift_piece(session: &mut GameSession, to_the_right: bool)
    requires
        old(session).well_formed(),
    ensures
        final(session)@ == old(session)@.shifted(
            if to_the_right {
                1
            } else {
                -1
            },
        ),
        final(session).well_formed(),
        old(session)@.has_headroom() ==> final(session)@.has_headroom(),
{
    if let Some(a) = session.active {
        if (to_the_right && a.position.x < isize::MAX) || (!to_the_right && a.position.x
            > isize::MIN) {
            let new_x = if to_the_right {
                a.position.x + 1
            } else {
                a.position.x - 1
            };
            if can_move_horizontally(&a.piece, &a.position, new_x, &session.game_map) {
                session.active = Some(
                    ActivePiece {
                        piece: a.piece,
                        position: Position { x: new_x, y: a.position.y },
                    },
                );
            }
        } else {
            proof {
                let dx: int = if to_the_right {
                    1
                } else {
                    -1
                };
                lemma_cannot_stand_beside_board(
                    a.piece,
                    a.position,
                    a.position.x + dx,
                    session.game_map@,
                );
            }
        }
    }
}

/// A piece that occupies a cell cannot stand with its whole box beside the
/// board.
pub proof fn lemma_cannot_stand_beside_board(
    piece: Piece,
    pos: Position,
    new_x: int,
    rows: Seq<Seq<Presence>>,
)
    requires
        piece.current_mask() != 0,
        new_x <= -4 || new_x >= NUM_BLOCKS_X,
    ensures
        !spec_can_move_horizontally(piece, pos, new_x, rows),
{
    crate::piece_utils::lemma_nonzero_mask_occupies(piece.current_mask());
    let (my, mx) = choose|my: int, mx: int|
        0 <= my < 4 && 0 <= mx < 4 && occupied(piece.current_mask(), my, mx);
    assert(!spec_free_for_shift(rows, new_x + mx, pos.y + my));
}

/// Turns the falling piece to its next rotation where it may stand so;
/// else it keeps the rotation it has.
pub fn rotate_piece(session: &mut GameSession)
    requires
        old(session).well_formed(),
    ensures
        final(session)@ == old(session)@.rotated(),
        final(session).well_formed(),
        old(session)@.has_headroom() ==> final(session)@.has_headroom(),
{
    if let Some(a) = session.active {
        let next_state = (a.piece.current_state + 1) % 4;
        let mut rotated_piece = a.piece;
        rotated_piece.current_state = next_state;
        assert(rotated_piece == a.turned().piece);
        if can_rotate(&rotated_piece, &a.position, &session.game_map) {
            session.active = Some(ActivePiece { piece: rotated_piece, position: a.position });
        }
    }
}

/// The row at which a piece comes to rest lies between the row it falls
/// from and the floor; the piece may stand in every row on its way there,
/// and cannot descend from the last.
pub proof fn lemma_landing_row(piece: Piece, pos: Position, y: int, rows: Seq<Seq<Presence>>)
    requires
        piece.current_mask() != 0,
    ensures
        y <= spec_landing_row(piece, pos, y, rows),
        y < NUM_BLOCKS_Y - 1 ==> spec_landing_row(piece, pos, y, rows) <= NUM_BLOCKS_Y - 1,
        y >= NUM_BLOCKS_Y - 1 ==> spec_landing_row(piece, pos, y, rows) == y,
        !spec_can_move(piece, pos, y + 1, rows) ==> spec_landing_row(piece, pos, y, rows) == y,
        !spec_can_move(piece, pos, spec_landing_row(piece, pos, y, rows) + 1, rows),
        forall|row: int|
            y < row <= spec_landing_row(piece, pos, y, rows) ==> spec_can_move(
                piece,
                pos,
                row,
                rows,
            ),
    decreases NUM_BLOCKS_Y - y,
{
    if y + 1 < NUM_BLOCKS_Y && spec_can_move(piece, pos, y + 1, rows) {
        lemma_landing_row(piece, pos, y + 1, rows);
    } else if y + 1 >= NUM_BLOCKS_Y {
        lemma_cannot_move_below_floor(piece, pos, y + 1, rows);
    }
}

/// A hard drop adds to the score exactly the number of rows that the piece
/// fell before it landed, and nothing where the piece already rests.
pub proof fn lemma_drop_scores_rows_fallen(session: SessionView)
    requires
        session.active is Some,
        session.active.unwrap().well_formed(),
        session.has_headroom(),
    ensures
        session.dropped().score.value == session.score.value + session.drop_distance(),
        session.dropped().active.unwrap().position.y == session.active.unwrap().position.y
            + session.drop_distance(),
        0 <= session.drop_distance() <= session.max_drop(),
        !session.can_descend() ==> session.drop_distance() == 0,
        !session.dropped().can_descend(),
{
    let a = session.active.unwrap();
    assert(a.piece.states[a.piece.current_state as int] != 0);
    lemma_landing_row(a.piece, a.position, a.position.y as int, session.rows);
    assert(session.dropped().active.unwrap().piece == a.piece);
    assert(spec_can_move(
        session.dropped().active.unwrap().piece,
        session.dropped().active.unwrap().position,
        session.dropped().active.unwrap().position.y + 1,
        session.dropped().rows,
    ) == spec_can_move(
        a.piece,
        a.position,
        spec_landing_row(a.piece, a.position, a.position.y as int, session.rows) + 1,
        session.rows,
    ));
}

/// Lets the falling piece fall as far as it goes, and adds one point to
/// the score for each row that it fell.
pub fn drop_piece(session: &mut GameSession)
    requires
        old(session).well_formed(),
        old(session)@.has_headroom(),
    ensures
        final(session)@ == old(session)@.dropped(),
        final(session).score.value == old(session).score.value + old(session)@.drop_distance(),
        0 <= old(session)@.drop_distance() <= old(session)@.max_drop(),
        !old(session)@.can_descend() ==> old(session)@.drop_distance() == 0,
        final(session).well_formed(),
        final(session)@.has_headroom(),
{
    if let Some(a) = session.active {
        let mut final_y: isize = a.position.y;
        while final_y < NUM_BLOCKS_Y as isize - 1 && can_move(
            &a.piece,
            &a.position,
            final_y + 1,
            &session.game_map,
        )
            invariant
                a.piece.well_formed(),
                session.game_map.well_formed(),
                a.position.y <= final_y,
                final_y <= a.position.y + session@.max_drop(),
                session@ == old(session)@,
                session@.active == Some(a),
                spec_landing_row(a.piece, a.position, final_y as int, session@.rows)
                    == spec_landing_row(
                    a.piece,
                    a.position,
                    a.position.y as int,
                    session@.rows,
                ),
            decreases NUM_BLOCKS_Y - final_y,
        {
            final_y += 1;
        }

        if final_y > a.position.y {
            session.score.value += (final_y as i128 - a.position.y as i128) as u32;
            session.active = Some(
                ActivePiece { piece: a.piece, position: Position { x: a.position.x, y: final_y } },
            );
        }
    }
}

/// Moves the falling piece as the pressed keys ask, in the order left,
/// right, down, hard drop, rotate, and tells whether the piece must land
/// now. Once it must, the keys that are left are dropped.
pub fn steer_piece(session: &mut GameSession, keys: &KeyPresses) -> (lands: bool)
    requires
        old(session).well_formed(),
        old(session)@.has_headroom(),
    ensures
        lands == old(session)@.lands_on(*keys),
        final(session)@ == old(session)@.steered(*keys),
        final(session).well_formed(),
        final(session)@.has_headroom(),
{
    if keys.left {
        shift_piece(session, false);
    }
    if keys.right {
        shift_piece(session, true);
    }
    if session.active.is_none() {
        return false;
    }
    if keys.down {
        if !descend(session) {
            return true;
        }
    }
    if keys.space {
        drop_piece(session);
        return true;
    }
    if keys.up {
        rotate_piece(session);
    }
    false
}

/// Handles the keys of one frame, with the piece to spawn if the falling
/// piece lands.
pub fn handle_input_with(session: &mut GameSession, keys: &KeyPresses, next: Piece)
    requires
        old(session).well_formed(),
        old(session)@.has_headroom(),
        next.well_formed(),
        next.is_solid(),
    ensures
        final(session)@ == old(session)@.after_keys(*keys, next),
        final(session).well_formed(),
{
    if steer_piece(session, keys) {
        land_piece(session, next);
    }
}

/// Handles the keys of one frame; where they make the falling piece land,
/// a piece picked by chance is spawned.
pub fn handle_input(session: &mut GameSession, keys: &KeyPresses)
    requires
        old(session).well_formed(),
        old(session)@.has_headroom(),
    ensures
        exists|next: Piece|
            next.in_catalog() && final(session)@ == old(session)@.after_keys(*keys, next),
        final(session).well_formed(),
{
    if steer_piece(session, keys) {
        let next = Piece::random();
        land_piece(session, next);
    } else {
        assert(catalog_piece(PieceType::O).in_catalog());
        assert(session@ == old(session)@.after_keys(*keys, catalog_piece(PieceType::O)));
    }
}

} // verus!
