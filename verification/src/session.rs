use crate::components::{Piece, Position};
use crate::game_constants::{NUM_BLOCKS_X, NUM_BLOCKS_Y, POINTS_PER_LINE};
use crate::game_types::{GameMap, Presence};
use crate::resources::{Level, Score};
use crate::state::GameState;
use crate::systems::input::{spec_can_move_horizontally, spec_can_rotate};
use crate::systems::lines::{
    spec_cleared, spec_full_count, spec_level_after_clear, spec_lines_in_level_after_clear,
    spec_score_after_clear,
};
use crate::systems::movement::{spec_can_move, spec_locked};
use vstd::prelude::*;

verus! {

/// The piece that is falling, and where its box stands.
#[derive(Debug, Copy, Clone)]
pub struct ActivePiece {
    pub piece: Piece,
    pub position: Position,
}

/// The keys that went down since the last frame.
#[derive(Debug, Copy, Clone, PartialEq, Eq, Structural)]
pub struct KeyPresses {
    /// Shift the piece one column to the left.
    pub left: bool,
    /// Shift the piece one column to the right.
    pub right: bool,
    /// Let the piece descend by one row.
    pub down: bool,
    /// Drop the piece as far as it goes.
    pub space: bool,
    /// Turn the piece to its next rotation.
    pub up: bool,
}

/// One game: the board, the falling piece if there is one, the score, the
/// level and whether the game is over.
pub struct GameSession {
    pub game_map: GameMap,
    pub active: Option<ActivePiece>,
    pub score: Score,
    pub level: Level,
    pub state: GameState,
}

/// What a session holds, with the board as rows of cells.
pub ghost struct SessionView {
    pub rows: Seq<Seq<Presence>>,
    pub active: Option<ActivePiece>,
    pub score: Score,
    pub level: Level,
    pub state: GameState,
}

/// Where the box of a new piece stands: in the middle of the top row.
pub open spec fn spec_spawn_position() -> Position {
    Position { x: (NUM_BLOCKS_X / 2 - 1) as isize, y: 0 }
}

/// The row at which a piece comes to rest when it falls from row `y`: the
/// first row from `y` on below which it cannot stand.
pub open spec fn spec_landing_row(
    piece: Piece,
    pos: Position,
    y: int,
    rows: Seq<Seq<Presence>>,
) -> int
    decreases NUM_BLOCKS_Y - y,
{
    if y + 1 < NUM_BLOCKS_Y && spec_can_move(piece, pos, y + 1, rows) {
        spec_landing_row(piece, pos, y + 1, rows)
    } else {
        y
    }
}

impl ActivePiece {
    /// The rotation index names a mask, and every rotation of the piece
    /// occupies a cell.
    pub open spec fn well_formed(&self) -> bool {
        self.piece.well_formed() && self.piece.is_solid()
    }

    /// The same piece with its box at column `x`.
    pub open spec fn at_column(self, x: int) -> ActivePiece {
        ActivePiece { position: Position { x: x as isize, y: self.position.y }, ..self }
    }

    /// The same piece with its box at row `y`.
    pub open spec fn at_row(self, y: int) -> ActivePiece {
        ActivePiece { position: Position { x: self.position.x, y: y as isize }, ..self }
    }

    /// The same piece in its next rotation.
    pub open spec fn turned(self) -> ActivePiece {
        ActivePiece {
            piece: self.piece.with_state(((self.piece.current_state + 1) % 4) as usize),
            ..self
        }
    }
}

impl SessionView {
    /// The board has its full height, and the falling piece, if there is
    /// one, is well formed.
    pub open spec fn well_formed(self) -> bool {
        &&& self.rows.len() == NUM_BLOCKS_Y
        &&& match self.active {
            Some(a) => a.well_formed(),
            None => true,
        }
    }

    /// The falling piece may descend by one row.
    pub open spec fn can_descend(self) -> bool {
        match self.active {
            Some(a) => spec_can_move(a.piece, a.position, a.position.y + 1, self.rows),
            None => false,
        }
    }

    /// The number of rows that the falling piece can fall.
    pub open spec fn drop_distance(self) -> int {
        match self.active {
            Some(a) => spec_landing_row(a.piece, a.position, a.position.y as int, self.rows)
                - a.position.y,
            None => 0,
        }
    }

    /// The session after the falling piece moved `dx` columns sideways, if
    /// it may stand there; else the session as it is.
    pub open spec fn shifted(self, dx: int) -> SessionView {
        match self.active {
            Some(a) => if spec_can_move_horizontally(
                a.piece,
                a.position,
                a.position.x + dx,
                self.rows,
            ) {
                SessionView { active: Some(a.at_column(a.position.x + dx)), ..self }
            } else {
                self
            },
            None => self,
        }
    }

    /// The session after the falling piece turned to its next rotation, if
    /// it may stand so; else the session as it is.
    pub open spec fn rotated(self) -> SessionView {
        match self.active {
            Some(a) => if spec_can_rotate(a.turned().piece, a.position, self.rows) {
                SessionView { active: Some(a.turned()), ..self }
            } else {
                self
            },
            None => self,
        }
    }

    /// The session after the falling piece descended by one row.
    pub open spec fn descended(self) -> SessionView {
        match self.active {
            Some(a) => SessionView { active: Some(a.at_row(a.position.y + 1)), ..self },
            None => self,
        }
    }

    /// The session after the falling piece fell as far as it goes: each row
    /// that it fell is worth one point.
    pub open spec fn dropped(self) -> SessionView {
        match self.active {
            Some(a) => SessionView {
                active: Some(a.at_row(a.position.y + self.drop_distance())),
                score: Score { value: (self.score.value + self.drop_distance()) as u32 },
                ..self
            },
            None => self,
        }
    }

    /// The session after the falling piece's blocks were written into the
    /// board; the piece is gone.
    pub open spec fn locked(self) -> SessionView {
        match self.active {
            Some(a) => SessionView {
                rows: spec_locked(self.rows, a.piece, a.position),
                active: None,
                ..self
            },
            None => self,
        }
    }

    /// The session after a clearing pass over its board.
    pub open spec fn cleared(self) -> SessionView {
        let lines = spec_full_count(self.rows);
        SessionView {
            rows: spec_cleared(self.rows),
            score: Score { value: spec_score_after_clear(self.score, lines) as u32 },
            level: Level {
                value: spec_level_after_clear(self.level, lines) as u32,
                lines_cleared_in_level: spec_lines_in_level_after_clear(self.level, lines) as u32,
            },
            ..self
        }
    }

    /// The session after `next` was put at the spawn position: it falls
    /// from there if it may stand there, else no piece is created and the
    /// game is over.
    pub open spec fn spawned(self, next: Piece) -> SessionView {
        if spec_can_move(next, spec_spawn_position(), 0, self.rows) {
            SessionView {
                active: Some(ActivePiece { piece: next, position: spec_spawn_position() }),
                ..self
            }
        } else {
            SessionView { state: GameState::GameOver, ..self }
        }
    }

    /// The session after the falling piece came to rest where it stands:
    /// its blocks are written into the board, full rows are cleared, and
    /// `next` is spawned.
    pub open spec fn landed(self, next: Piece) -> SessionView {
        self.locked().cleared().spawned(next)
    }

    /// The session after one step of gravity, or a soft drop: the falling
    /// piece descends by one row, or lands where it cannot.
    pub open spec fn after_gravity(self, next: Piece) -> SessionView {
        if self.active is None {
            self
        } else if self.can_descend() {
            self.descended()
        } else {
            self.landed(next)
        }
    }

    /// The session after a hard drop: the falling piece falls as far as it
    /// goes and lands there.
    pub open spec fn after_hard_drop(self, next: Piece) -> SessionView {
        if self.active is None {
            self
        } else {
            self.dropped().landed(next)
        }
    }

    /// The session after the pressed keys moved the falling piece, in the
    /// order left, right, down, hard drop, rotate, up to the point where
    /// the piece must land. Once it must, the keys that are left are
    /// dropped: they were meant for that piece.
    pub open spec fn steered(self, keys: KeyPresses) -> SessionView {
        let a = if keys.left {
            self.shifted(-1)
        } else {
            self
        };
        let b = if keys.right {
            a.shifted(1)
        } else {
            a
        };
        if b.active is None || (keys.down && !b.can_descend()) {
            b
        } else {
            let c = if keys.down {
                b.descended()
            } else {
                b
            };
            if keys.space {
                c.dropped()
            } else if keys.up {
                c.rotated()
            } else {
                c
            }
        }
    }

    /// The pressed keys make the falling piece land: a soft drop where it
    /// cannot descend, or a hard drop.
    pub open spec fn lands_on(self, keys: KeyPresses) -> bool {
        let a = if keys.left {
            self.shifted(-1)
        } else {
            self
        };
        let b = if keys.right {
            a.shifted(1)
        } else {
            a
        };
        b.active is Some && ((keys.down && !b.can_descend()) || keys.space)
    }

    /// The session after the pressed keys were handled; `next` is spawned
    /// if they made the falling piece land.
    pub open spec fn after_keys(self, keys: KeyPresses, next: Piece) -> SessionView {
        if self.lands_on(keys) {
            self.steered(keys).landed(next)
        } else {
            self.steered(keys)
        }
    }

    /// The most rows that the falling piece could fall: down to the floor.
    pub open spec fn max_drop(self) -> int {
        match self.active {
            Some(a) => if a.position.y < NUM_BLOCKS_Y - 1 {
                NUM_BLOCKS_Y - 1 - a.position.y
            } else {
                0
            },
            None => 0,
        }
    }

    /// The score and the level's counters have room for whatever one frame
    /// can add: a drop to the floor and a pass that clears every row.
    pub open spec fn has_headroom(self) -> bool {
        &&& self.score.value + self.max_drop() + POINTS_PER_LINE * NUM_BLOCKS_Y <= u32::MAX
        &&& self.level.lines_cleared_in_level + NUM_BLOCKS_Y <= u32::MAX
        &&& self.level.value < u32::MAX
    }
}

impl View for GameSession {
    type V = SessionView;

    open spec fn view(&self) -> SessionView {
        SessionView {
            rows: self.game_map@,
            active: self.active,
            score: self.score,
            level: self.level,
            state: self.state,
        }
    }
}

impl GameSession {
    /// The board has its shape, and the falling piece, if there is one, is
    /// well formed.
    pub open spec fn well_formed(&self) -> bool {
        &&& self.game_map.well_formed()
        &&& match self.active {
            Some(a) => a.well_formed(),
            None => true,
        }
    }

    /// Tells whether the session is well formed and has room for the
    /// points and lines of one more frame, as every step asks.
    pub fn can_step(&self) -> (ok: bool)
        ensures
            ok == (self.well_formed() && self@.has_headroom()),
    {
        if !self.game_map.is_well_formed() {
            return false;
        }
        let drop: i128 = match self.active {
            Some(a) => {
                if !a.piece.is_usable() {
                    return false;
                }
                if a.position.y < NUM_BLOCKS_Y as isize - 1 {
                    NUM_BLOCKS_Y as i128 - 1 - a.position.y as i128
                } else {
                    0
                }
            },
            None => 0,
        };
        self.score.value as i128 + drop + POINTS_PER_LINE as i128 * NUM_BLOCKS_Y as i128
            <= u32::MAX as i128 && self.level.lines_cleared_in_level as u64 + NUM_BLOCKS_Y as u64
            <= u32::MAX as u64 && self.level.value < u32::MAX
    }

    /// A session at the start of a game: an empty board, no piece yet, no
    /// points, the first level.
    pub fn new() -> (session: GameSession)
        ensures
            session.well_formed(),
            session@.rows == crate::game_types::spec_empty_rows(NUM_BLOCKS_Y as nat),
            session@.active is None,
            session@.score.value == 0,
            session@.level.value == 0,
            session@.level.lines_cleared_in_level == 0,
            session@.state == GameState::Playing,
    {
        GameSession {
            game_map: GameMap::default(),
            active: None,
            score: Score::default(),
            level: Level::default(),
            state: GameState::Playing,
        }
    }
}

} // verus!
