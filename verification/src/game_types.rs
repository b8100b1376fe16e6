use crate::game_color::GameColor;
use crate::game_constants::{NUM_BLOCKS_X, NUM_BLOCKS_Y};
use vstd::prelude::*;

verus! {

/// A piece's 4×4 bounding box, row by row.
pub type PieceMatrix = [[Presence; 4]; 4];

/// The seven shapes of the catalogue.
#[derive(Debug, Copy, Clone, PartialEq, Eq, Structural)]
pub enum PieceType {
    L,
    J,
    S,
    Z,
    T,
    I,
    O,
}

/// What a cell holds: nothing, or a block of some colour.
#[derive(Debug, Copy, Clone, PartialEq, Eq, Structural)]
pub enum Presence {
    No,
    Yes(GameColor),
}

/// The board: rows from top to bottom, each row from left to right.
pub struct GameMap(pub Vec<Vec<Presence>>);

/// A row without blocks.
pub open spec fn spec_empty_row() -> Seq<Presence> {
    Seq::new(NUM_BLOCKS_X as nat, |x: int| Presence::No)
}

/// A board of `height` rows without blocks.
pub open spec fn spec_empty_rows(height: nat) -> Seq<Seq<Presence>> {
    Seq::new(height, |y: int| spec_empty_row())
}

/// Every cell of the row holds a block.
pub open spec fn spec_row_is_full(row: Seq<Presence>) -> bool {
    forall|x: int| 0 <= x < row.len() ==> #[trigger] row[x] != Presence::No
}

/// Every row has the board's width.
pub open spec fn spec_rows_well_formed(rows: Seq<Seq<Presence>>) -> bool {
    forall|y: int| 0 <= y < rows.len() ==> (#[trigger] rows[y]).len() == NUM_BLOCKS_X
}

impl View for GameMap {
    type V = Seq<Seq<Presence>>;

    open spec fn view(&self) -> Seq<Seq<Presence>> {
        Seq::new(self.0@.len(), |y: int| self.0@[y]@)
    }
}

impl GameMap {
    /// Every row has the board's width, whatever the number of rows.
    pub open spec fn rows_well_formed(&self) -> bool {
        spec_rows_well_formed(self@)
    }

    /// The board has its full height and every row has the board's width.
    pub open spec fn well_formed(&self) -> bool {
        &&& self@.len() == NUM_BLOCKS_Y
        &&& self.rows_well_formed()
    }

    /// Tells whether the board has its full height and every row its
    /// width.
    pub fn is_well_formed(&self) -> (ok: bool)
        ensures
            ok == self.well_formed(),
    {
        if self.0.len() != NUM_BLOCKS_Y {
            return false;
        }
        let mut y: usize = 0;
        while y < NUM_BLOCKS_Y
            invariant
                y <= NUM_BLOCKS_Y,
                self@.len() == NUM_BLOCKS_Y,
                forall|i: int| 0 <= i < y ==> (#[trigger] self@[i]).len() == NUM_BLOCKS_X,
            decreases NUM_BLOCKS_Y - y,
        {
            if self.0[y].len() != NUM_BLOCKS_X {
                assert(self@[y as int].len() != NUM_BLOCKS_X);
                return false;
            }
            y += 1;
        }
        true
    }

    /// The number of rows.
    pub fn height(&self) -> (h: usize)
        ensures
            h == self@.len(),
    {
        self.0.len()
    }

    /// Reads the cell in column `x` of row `y`.
    pub fn cell(&self, x: usize, y: usize) -> (cell: Presence)
        requires
            y < self@.len(),
            x < self@[y as int].len(),
        ensures
            cell == self@[y as int][x as int],
    {
        self.0[y][x]
    }

    /// Puts a block of the given colour in column `x` of row `y`.
    pub fn set(&mut self, x: usize, y: usize, color: GameColor)
        requires
            y < old(self)@.len(),
            x < old(self)@[y as int].len(),
        ensures
            final(self)@ == old(self)@.update(
                y as int,
                old(self)@[y as int].update(x as int, Presence::Yes(color)),
            ),
    {
        self.0[y][x] = Presence::Yes(color);
        assert(self@ =~~= old(self)@.update(
            y as int,
            old(self)@[y as int].update(x as int, Presence::Yes(color)),
        ));
    }

    /// Tells whether every cell of row `y` holds a block.
    pub fn row_is_full(&self, y: usize) -> (full: bool)
        requires
            y < self@.len(),
        ensures
            full == spec_row_is_full(self@[y as int]),
    {
        let row = &self.0[y];
        let mut x: usize = 0;
        while x < row.len()
            invariant
                x <= row.len(),
                row@ == self@[y as int],
                forall|i: int| 0 <= i < x ==> #[trigger] row@[i] != Presence::No,
            decreases row.len() - x,
        {
            match row[x] {
                Presence::No => {
                    return false;
                },
                Presence::Yes(_) => {},
            }
            x += 1;
        }
        true
    }

    /// Takes row `y` out of the board; the rows below it move up by one.
    pub fn remove_row(&mut self, y: usize)
        requires
            y < old(self)@.len(),
        ensures
            final(self)@ == old(self)@.remove(y as int),
    {
        let _ = self.0.remove(y);
        assert(self@ =~~= old(self)@.remove(y as int));
    }

    /// Puts a row without blocks above all others; every row moves down by
    /// one.
    pub fn insert_empty_row_at_top(&mut self)
        requires
            old(self)@.len() < usize::MAX,
        ensures
            final(self)@ == old(self)@.insert(0, spec_empty_row()),
    {
        let row = empty_row();
        self.0.insert(0, row);
        assert(self@ =~~= old(self)@.insert(0, spec_empty_row()));
    }
}

/// Builds a row without blocks.
pub fn empty_row() -> (row: Vec<Presence>)
    ensures
        row@ == spec_empty_row(),
{
    let mut row: Vec<Presence> = Vec::new();
    let mut x: usize = 0;
    while x < NUM_BLOCKS_X
        invariant
            x <= NUM_BLOCKS_X,
            row@.len() == x,
            forall|i: int| 0 <= i < x ==> #[trigger] row@[i] == Presence::No,
        decreases NUM_BLOCKS_X - x,
    {
        row.push(Presence::No);
        x += 1;
    }
    assert(row@ =~= spec_empty_row());
    row
}

impl Default for GameMap {
    /// The board at the start of a game: full height, no blocks.
    fn default() -> (map: GameMap)
        ensures
            map@ == spec_empty_rows(NUM_BLOCKS_Y as nat),
            map.well_formed(),
    {
        let mut rows: Vec<Vec<Presence>> = Vec::new();
        let mut y: usize = 0;
        while y < NUM_BLOCKS_Y
            invariant
                y <= NUM_BLOCKS_Y,
                rows@.len() == y,
                forall|i: int| 0 <= i < y ==> (#[trigger] rows@[i])@ == spec_empty_row(),
            decreases NUM_BLOCKS_Y - y,
        {
            rows.push(empty_row());
            y += 1;
        }
        let map = GameMap(rows);
        assert(map@ =~~= spec_empty_rows(NUM_BLOCKS_Y as nat));
        map
    }
}

} // verus!
