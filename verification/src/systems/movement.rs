use crate::components::{catalog_piece, Piece, Position};
use crate::game_constants::{NUM_BLOCKS_X, NUM_BLOCKS_Y};
use crate::game_types::{GameMap, PieceType, Presence};
use crate::piece_utils::{get_block_matrix, is_block_matrix, lemma_nonzero_mask_occupies, occupied};
use crate::session::{ActivePiece, GameSession};
use crate::systems::lines::{clear_lines, lemma_kept_and_full};
use crate::systems::spawning::spawn_piece_with;
use vstd::prelude::*;

verus! {

/// The cell in column `x` of row `y` lies on the board and holds a block.
pub open spec fn spec_filled(rows: Seq<Seq<Presence>>, x: int, y: int) -> bool {
    &&& 0 <= y < rows.len()
    &&& 0 <= x < rows[y].len()
    &&& rows[y][x] != Presence::No
}

/// A block of a descending piece may stand at `(x, y)`: above the floor and
/// not on a block of the board. Cells beside or above the board are free.
pub open spec fn spec_free_for_descent(rows: Seq<Seq<Presence>>, x: int, y: int) -> bool {
    y < NUM_BLOCKS_Y && !spec_filled(rows, x, y)
}

/// The piece, with its box at column `pos.x` and row `new_y`, has every
/// block above the floor and on no block of the board.
pub open spec fn spec_can_move(
    piece: Piece,
    pos: Position,
    new_y: int,
    rows: Seq<Seq<Presence>>,
) -> bool {
    forall|my: int, mx: int|
        0 <= my < 4 && 0 <= mx < 4 && #[trigger] occupied(piece.current_mask(), my, mx)
            ==> spec_free_for_descent(rows, pos.x + mx, new_y + my)
}

/// The board after the piece's blocks were written into it at `pos`: a cell
/// under an occupied cell of the piece takes the piece's colour, every other
/// cell stays. Blocks of the piece that lie off the board are dropped.
pub open spec fn spec_locked(rows: Seq<Seq<Presence>>, piece: Piece, pos: Position) -> Seq<
    Seq<Presence>,
> {
    Seq::new(
        rows.len(),
        |y: int|
            Seq::new(
                rows[y].len(),
                |x: int|
                    if spec_covers(piece, pos, x, y, 16) {
                        Presence::Yes(piece.color)
                    } else {
                        rows[y][x]
                    },
            ),
    )
}

/// The board cell `(x, y)` lies under an occupied cell of the piece that is
/// among the first `count` cells of its box, counted row by row.
pub open spec fn spec_covers(piece: Piece, pos: Position, x: int, y: int, count: int) -> bool {
    &&& 0 <= y - pos.y < 4
    &&& 0 <= x - pos.x < 4
    &&& 4 * (y - pos.y) + (x - pos.x) < count
    &&& occupied(piece.current_mask(), y - pos.y, x - pos.x)
}

/// Tells whether the piece may stand with its box at column
/// `current_pos.x` and row `new_y`: no block of it at or below the floor,
/// none on a block of the board. Blocks above the top or beside the board
/// are not objected to.
pub fn can_move(piece: &Piece, current_pos: &Position, new_y: isize, game_map: &GameMap) -> (ok:
    bool)
    requires
        piece.well_formed(),
        game_map.well_formed(),
    ensures
        ok == spec_can_move(*piece, *current_pos, new_y as int, game_map@),
        piece.current_mask() != 0 && new_y >= NUM_BLOCKS_Y ==> !ok,
{
    let ghost mask = piece.current_mask();
    let piece_matrix = get_block_matrix(piece.states[piece.current_state], piece.color);
    let mut my: usize = 0;
    while my < 4
        invariant
            my <= 4,
            game_map.well_formed(),
            mask == piece.current_mask(),
            is_block_matrix(piece_matrix, mask, piece.color),
            forall|r: int, c: int|
                0 <= r < my && 0 <= c < 4 && #[trigger] occupied(mask, r, c)
                    ==> spec_free_for_descent(game_map@, current_pos.x + c, new_y + r),
        decreases 4 - my,
    {
        let mut mx: usize = 0;
        while mx < 4
            invariant
                my < 4,
                mx <= 4,
                game_map.well_formed(),
                mask == piece.current_mask(),
                is_block_matrix(piece_matrix, mask, piece.color),
                forall|r: int, c: int|
                    0 <= r < my && 0 <= c < 4 && #[trigger] occupied(mask, r, c)
                        ==> spec_free_for_descent(game_map@, current_pos.x + c, new_y + r),
                forall|c: int|
                    0 <= c < mx && #[trigger] occupied(mask, my as int, c)
                        ==> spec_free_for_descent(game_map@, current_pos.x + c, new_y + my),
            decreases 4 - mx,
        {
            assert(piece_matrix[my as int][mx as int] == crate::piece_utils::spec_matrix_cell(
                mask,
                piece.color,
                my as int,
                mx as int,
            ));
            if let Presence::Yes(_) = piece_matrix[my][mx] {
                let block_x: i128 = current_pos.x as i128 + mx as i128;
                let block_y: i128 = new_y as i128 + my as i128;

                if block_y >= NUM_BLOCKS_Y as i128 {
                    assert(occupied(mask, my as int, mx as int));
                    return false;
                }
                if block_x >= 0 && block_x < NUM_BLOCKS_X as i128 && block_y >= 0 {
                    assert(game_map@[block_y as int].len() == NUM_BLOCKS_X);
                    if let Presence::Yes(_) = game_map.0[block_y as usize][block_x as usize] {
                        assert(occupied(mask, my as int, mx as int));
                        return false;
                    }
                }
            }
            mx += 1;
        }
        my += 1;
    }
    proof {
        if mask != 0 && new_y >= NUM_BLOCKS_Y {
            lemma_cannot_move_below_floor(*piece, *current_pos, new_y as int, game_map@);
        }
    }
    true
}

/// A piece that occupies a cell cannot stand with its box at the floor's
/// row or below it, wherever it is and whatever the board holds.
pub proof fn lemma_cannot_move_below_floor(
    piece: Piece,
    pos: Position,
    new_y: int,
    rows: Seq<Seq<Presence>>,
)
    requires
        piece.current_mask() != 0,
        new_y >= NUM_BLOCKS_Y,
    ensures
        !spec_can_move(piece, pos, new_y, rows),
{
    lemma_nonzero_mask_occupies(piece.current_mask());
    let (my, mx) = choose|my: int, mx: int|
        0 <= my < 4 && 0 <= mx < 4 && occupied(piece.current_mask(), my, mx);
    assert(!spec_free_for_descent(rows, pos.x + mx, new_y + my));
}

/// A piece that occupies a cell and may stand with its box at row `new_y`
/// has that row above the floor.
pub proof fn lemma_can_move_is_above_floor(
    piece: Piece,
    pos: Position,
    new_y: int,
    rows: Seq<Seq<Presence>>,
)
    requires
        piece.current_mask() != 0,
        spec_can_move(piece, pos, new_y, rows),
    ensures
        new_y < NUM_BLOCKS_Y,
{
    if new_y >= NUM_BLOCKS_Y {
        lemma_cannot_move_below_floor(piece, pos, new_y, rows);
    }
}

/// Writes the piece's blocks into the board at `position`, each in the
/// piece's colour. Blocks that lie off the board are dropped.
pub fn lock_piece(game_map: &mut GameMap, piece: &Piece, position: &Position)
    requires
        piece.well_formed(),
        old(game_map).well_formed(),
    ensures
        final(game_map)@ == spec_locked(old(game_map)@, *piece, *position),
        final(game_map).well_formed(),
{
    let ghost mask = piece.current_mask();
    let piece_matrix = get_block_matrix(piece.states[piece.current_state], piece.color);
    let mut my: usize = 0;
    while my < 4
        invariant
            my <= 4,
            piece.well_formed(),
            mask == piece.current_mask(),
            is_block_matrix(piece_matrix, mask, piece.color),
            game_map.well_formed(),
            forall|y: int, x: int|
                0 <= y < NUM_BLOCKS_Y && 0 <= x < NUM_BLOCKS_X ==> #[trigger] game_map@[y][x] == (
                if spec_covers(*piece, *position, x, y, 4 * my) {
                    Presence::Yes(piece.color)
                } else {
                    old(game_map)@[y][x]
                }),
        decreases 4 - my,
    {
        let mut mx: usize = 0;
        while mx < 4
            invariant
                my < 4,
                mx <= 4,
                piece.well_formed(),
                mask == piece.current_mask(),
                is_block_matrix(piece_matrix, mask, piece.color),
                game_map.well_formed(),
                forall|y: int, x: int|
                    0 <= y < NUM_BLOCKS_Y && 0 <= x < NUM_BLOCKS_X ==> #[trigger] game_map@[y][x]
                        == (if spec_covers(*piece, *position, x, y, 4 * my + mx) {
                        Presence::Yes(piece.color)
                    } else {
                        old(game_map)@[y][x]
                    }),
            decreases 4 - mx,
        {
            assert(piece_matrix[my as int][mx as int] == crate::piece_utils::spec_matrix_cell(
                mask,
                piece.color,
                my as int,
                mx as int,
            ));
            if let Presence::Yes(color) = piece_matrix[my][mx] {
                let map_x: i128 = position.x as i128 + mx as i128;
                let map_y: i128 = position.y as i128 + my as i128;
                if map_x >= 0 && map_x < NUM_BLOCKS_X as i128 && map_y >= 0 && map_y
                    < NUM_BLOCKS_Y as i128 {
                    assert(game_map@[map_y as int].len() == NUM_BLOCKS_X);
                    game_map.set(map_x as usize, map_y as usize, color);
                }
            }
            mx += 1;
        }
        my += 1;
    }
    assert(game_map@ =~~= spec_locked(old(game_map)@, *piece, *position));
}

/// Lets the falling piece come to rest where it stands: writes its blocks
/// into the board, clears the full rows, and spawns `next`.
pub fn land_piece(session: &mut GameSession, next: Piece)
    requires
        old(session).well_formed(),
        old(session)@.has_headroom(),
        next.well_formed(),
        next.is_solid(),
    ensures
        final(session)@ == old(session)@.landed(next),
        final(session).well_formed(),
{
    if let Some(a) = session.active {
        lock_piece(&mut session.game_map, &a.piece, &a.position);
        session.active = None;
    }
    proof {
        lemma_kept_and_full(session.game_map@);
    }
    clear_lines(&mut session.game_map, &mut session.score, &mut session.level);
    spawn_piece_with(session, next);
}

/// Moves the falling piece down by one row where it may stand there, and
/// tells whether the step is done: `false` where the piece is blocked and
/// must land.
pub fn descend(session: &mut GameSession) -> (done: bool)
    requires
        old(session).well_formed(),
    ensures
        done == (old(session)@.active is None || old(session)@.can_descend()),
        final(session)@ == (if old(session)@.can_descend() {
            old(session)@.descended()
        } else {
            old(session)@
        }),
        final(session).well_formed(),
        old(session)@.has_headroom() ==> final(session)@.has_headroom(),
{
    match session.active {
        None => true,
        Some(a) => {
            if a.position.y < NUM_BLOCKS_Y as isize - 1 && can_move(
                &a.piece,
                &a.position,
                a.position.y + 1,
                &session.game_map,
            ) {
                session.active = Some(
                    ActivePiece {
                        piece: a.piece,
                        position: Position { x: a.position.x, y: a.position.y + 1 },
                    },
                );
                true
            } else {
                proof {
                    if a.position.y >= NUM_BLOCKS_Y - 1 {
                        lemma_cannot_move_below_floor(
                            a.piece,
                            a.position,
                            a.position.y + 1,
                            session.game_map@,
                        );
                    }
                }
                false
            }
        },
    }
}

/// One step of gravity, with the piece to spawn if the falling piece
/// lands: the piece descends by one row, or lands where it cannot.
pub fn move_piece_down_with(session: &mut GameSession, next: Piece)
    requires
        old(session).well_formed(),
        old(session)@.has_headroom(),
        next.well_formed(),
        next.is_solid(),
    ensures
        final(session)@ == old(session)@.after_gravity(next),
        final(session).well_formed(),
{
    if !descend(session) {
        land_piece(session, next);
    }
}

/// One step of gravity: the falling piece descends by one row, or lands
/// where it cannot, and a piece picked by chance is spawned.
pub fn move_piece_down(session: &mut GameSession)
    requires
        old(session).well_formed(),
        old(session)@.has_headroom(),
    ensures
        exists|next: Piece|
            next.in_catalog() && final(session)@ == old(session)@.after_gravity(next),
        final(session).well_formed(),
{
    if !descend(session) {
        let next = Piece::random();
        land_piece(session, next);
    } else {
        assert(catalog_piece(PieceType::O).in_catalog());
        assert(session@ == old(session)@.after_gravity(catalog_piece(PieceType::O)));
    }
}

} // verus!
