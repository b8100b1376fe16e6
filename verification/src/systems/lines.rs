use crate::game_constants::{LINES_PER_LEVEL, POINTS_PER_LINE};
use crate::game_types::{
    spec_empty_row, spec_empty_rows, spec_row_is_full, spec_rows_well_formed, GameMap, Presence,
};
use crate::resources::{Level, Score};
use vstd::prelude::*;

verus! {

/// The number of full rows among `rows`.
pub open spec fn spec_full_count(rows: Seq<Seq<Presence>>) -> nat
    decreases rows.len(),
{
    if rows.len() == 0 {
        0
    } else if spec_row_is_full(rows[0]) {
        1 + spec_full_count(rows.skip(1))
    } else {
        spec_full_count(rows.skip(1))
    }
}

/// The rows that are not full, in their order.
pub open spec fn spec_kept_rows(rows: Seq<Seq<Presence>>) -> Seq<Seq<Presence>>
    decreases rows.len(),
{
    if rows.len() == 0 {
        Seq::empty()
    } else if spec_row_is_full(rows[0]) {
        spec_kept_rows(rows.skip(1))
    } else {
        seq![rows[0]] + spec_kept_rows(rows.skip(1))
    }
}

/// The board after a clearing pass: the rows that are not full, in their
/// order, below as many empty rows as there were full ones.
pub open spec fn spec_cleared(rows: Seq<Seq<Presence>>) -> Seq<Seq<Presence>> {
    spec_empty_rows(spec_full_count(rows)) + spec_kept_rows(rows)
}

/// The score after a pass that cleared `lines` rows.
pub open spec fn spec_score_after_clear(score: Score, lines: nat) -> int {
    score.value + POINTS_PER_LINE * lines
}

/// The rows cleared in the level, after a pass that cleared `lines` rows:
/// the counter grows by `lines` and starts again at zero once it reaches
/// the number of rows that complete a level.
pub open spec fn spec_lines_in_level_after_clear(level: Level, lines: nat) -> int {
    if level.lines_cleared_in_level + lines >= LINES_PER_LEVEL && lines > 0 {
        0
    } else {
        level.lines_cleared_in_level + lines
    }
}

/// The level after a pass that cleared `lines` rows: one more where the
/// counter reached the number of rows that complete a level.
pub open spec fn spec_level_after_clear(level: Level, lines: nat) -> int {
    if level.lines_cleared_in_level + lines >= LINES_PER_LEVEL && lines > 0 {
        level.value + 1
    } else {
        level.value as int
    }
}

/// The score and the level's counters have room for a pass that clears
/// `lines` rows.
pub open spec fn spec_clear_fits(score: Score, level: Level, lines: nat) -> bool {
    &&& spec_score_after_clear(score, lines) <= u32::MAX
    &&& level.lines_cleared_in_level + lines <= u32::MAX
    &&& spec_level_after_clear(level, lines) <= u32::MAX
}

/// The kept rows and the full rows together are all the rows.
pub proof fn lemma_kept_and_full(rows: Seq<Seq<Presence>>)
    ensures
        spec_kept_rows(rows).len() + spec_full_count(rows) == rows.len(),
    decreases rows.len(),
{
    if rows.len() > 0 {
        lemma_kept_and_full(rows.skip(1));
    }
}

/// Splitting the rows at `k` splits the kept rows and the count of full
/// rows with them.
pub proof fn lemma_kept_split(rows: Seq<Seq<Presence>>, k: int)
    requires
        0 <= k <= rows.len(),
    ensures
        spec_kept_rows(rows) == spec_kept_rows(rows.take(k)) + spec_kept_rows(rows.skip(k)),
        spec_full_count(rows) == spec_full_count(rows.take(k)) + spec_full_count(rows.skip(k)),
    decreases k,
{
    if k == 0 {
        assert(rows.skip(0) =~= rows);
        assert(rows.take(0) =~= Seq::empty());
        assert(spec_kept_rows(rows.take(0)) =~= Seq::empty());
        assert(spec_kept_rows(rows) =~= spec_kept_rows(rows.take(0)) + spec_kept_rows(
            rows.skip(0),
        ));
    } else {
        lemma_kept_split(rows.skip(1), k - 1);
        assert(rows.skip(1).skip(k - 1) =~= rows.skip(k));
        assert(rows.take(k).skip(1) =~= rows.skip(1).take(k - 1));
        assert(rows.take(k)[0] == rows[0]);
        assert(spec_kept_rows(rows) =~= spec_kept_rows(rows.take(k)) + spec_kept_rows(
            rows.skip(k),
        ));
    }
}

/// Every kept row has the board's width where every row had it.
pub proof fn lemma_kept_rows_well_formed(rows: Seq<Seq<Presence>>)
    requires
        spec_rows_well_formed(rows),
    ensures
        spec_rows_well_formed(spec_kept_rows(rows)),
    decreases rows.len(),
{
    if rows.len() > 0 {
        let rest = rows.skip(1);
        assert forall|y: int| 0 <= y < rest.len() implies (#[trigger] rest[y]).len()
            == crate::game_constants::NUM_BLOCKS_X by {
            assert(rest[y] == rows[y + 1]);
        }
        lemma_kept_rows_well_formed(rest);
    }
}

/// A clearing pass keeps the number of rows, and the width of every row.
pub proof fn lemma_cleared_keeps_shape(rows: Seq<Seq<Presence>>)
    ensures
        spec_cleared(rows).len() == rows.len(),
        spec_rows_well_formed(rows) ==> spec_rows_well_formed(spec_cleared(rows)),
{
    lemma_kept_and_full(rows);
    if spec_rows_well_formed(rows) {
        lemma_kept_rows_well_formed(rows);
    }
}

/// A row that is not full survives a clearing pass with every cell as it
/// was, moved down by as many rows as there were full rows below it; the
/// rows above the survivors are empty.
pub proof fn lemma_cleared_keeps_other_rows(rows: Seq<Seq<Presence>>, y: int)
    requires
        0 <= y < rows.len(),
        !spec_row_is_full(rows[y]),
    ensures
        0 <= y + spec_full_count(rows.skip(y + 1)) < rows.len(),
        spec_cleared(rows)[y + spec_full_count(rows.skip(y + 1))] == rows[y],
        forall|top: int|
            0 <= top < spec_full_count(rows) ==> #[trigger] spec_cleared(rows)[top]
                == spec_empty_row(),
{
    let above = rows.take(y);
    let below = rows.skip(y + 1);
    lemma_kept_split(rows, y);
    lemma_kept_split(rows.skip(y), 1);
    assert(rows.skip(y).skip(1) =~= below);
    assert(rows.skip(y).take(1) =~= seq![rows[y]]);
    assert(seq![rows[y]].skip(1) =~= Seq::<Seq<Presence>>::empty());
    assert(spec_kept_rows(seq![rows[y]]) =~= seq![rows[y]]);
    assert(spec_full_count(seq![rows[y]]) == 0);
    lemma_kept_and_full(above);
    lemma_kept_and_full(below);
    lemma_kept_and_full(rows);
    assert(spec_kept_rows(rows) =~= spec_kept_rows(above) + (seq![rows[y]] + spec_kept_rows(
        below,
    )));
}

/// Rows of which none is full are all kept.
pub proof fn lemma_rows_without_full_are_kept(rows: Seq<Seq<Presence>>)
    requires
        forall|y: int| 0 <= y < rows.len() ==> !spec_row_is_full(#[trigger] rows[y]),
    ensures
        spec_kept_rows(rows) == rows,
        spec_full_count(rows) == 0,
    decreases rows.len(),
{
    if rows.len() > 0 {
        let rest = rows.skip(1);
        assert forall|y: int| 0 <= y < rest.len() implies !spec_row_is_full(#[trigger] rest[y]) by {
            assert(rest[y] == rows[y + 1]);
        }
        lemma_rows_without_full_are_kept(rest);
        assert(seq![rows[0]] + rest =~= rows);
    } else {
        assert(spec_kept_rows(rows) =~= rows);
    }
}

/// None of the kept rows is full.
pub proof fn lemma_kept_rows_are_not_full(rows: Seq<Seq<Presence>>)
    ensures
        forall|y: int|
            0 <= y < spec_kept_rows(rows).len() ==> !spec_row_is_full(
                #[trigger] spec_kept_rows(rows)[y],
            ),
    decreases rows.len(),
{
    if rows.len() > 0 {
        let rest = spec_kept_rows(rows.skip(1));
        lemma_kept_rows_are_not_full(rows.skip(1));
        if !spec_row_is_full(rows[0]) {
            assert forall|y: int| 0 <= y < spec_kept_rows(rows).len() implies !spec_row_is_full(
                #[trigger] spec_kept_rows(rows)[y],
            ) by {
                if y > 0 {
                    assert(spec_kept_rows(rows)[y] == rest[y - 1]);
                }
            }
        }
    }
}

/// A board that was cleared holds no full row, and a second clearing pass
/// changes nothing.
pub proof fn lemma_cleared_twice(rows: Seq<Seq<Presence>>)
    ensures
        spec_full_count(spec_cleared(rows)) == 0,
        spec_cleared(spec_cleared(rows)) == spec_cleared(rows),
{
    let once = spec_cleared(rows);
    let lines = spec_full_count(rows);
    lemma_kept_rows_are_not_full(rows);
    assert forall|y: int| 0 <= y < once.len() implies !spec_row_is_full(#[trigger] once[y]) by {
        if y < lines {
            assert(once[y] == spec_empty_row());
            assert(spec_empty_row()[0] == Presence::No);
        } else {
            assert(once[y] == spec_kept_rows(rows)[y - lines]);
        }
    }
    lemma_rows_without_full_are_kept(once);
    assert(spec_empty_rows(0) + once =~= once);
}

/// Removes every full row, lets the rows above it fall, and fills the board
/// up from the top with empty rows. Each cleared row earns points and counts
/// towards the next level.
pub fn clear_lines(game_map: &mut GameMap, score: &mut Score, level: &mut Level)
    requires
        old(game_map).rows_well_formed(),
        spec_clear_fits(*old(score), *old(level), spec_full_count(old(game_map)@)),
    ensures
        final(game_map)@ == spec_cleared(old(game_map)@),
        final(game_map)@.len() == old(game_map)@.len(),
        final(game_map).rows_well_formed(),
        final(score).value == spec_score_after_clear(
            *old(score),
            spec_full_count(old(game_map)@),
        ),
        final(level).lines_cleared_in_level == spec_lines_in_level_after_clear(
            *old(level),
            spec_full_count(old(game_map)@),
        ),
        final(level).value == spec_level_after_clear(
            *old(level),
            spec_full_count(old(game_map)@),
        ),
{
    let ghost before = game_map@;
    let height = game_map.height();
    let mut lines_cleared: u32 = 0;
    let mut y: usize = height;
    proof {
        assert(before.take(y as int) =~= before);
        assert(before.skip(y as int) =~= Seq::empty());
        lemma_kept_and_full(before);
        lemma_kept_split(before, y as int);
    }
    while y > 0
        invariant
            y <= height,
            height == before.len(),
            game_map@ == before.take(y as int) + spec_kept_rows(before.skip(y as int)),
            lines_cleared == spec_full_count(before.skip(y as int)),
            spec_full_count(before) == spec_full_count(before.take(y as int)) + spec_full_count(
                before.skip(y as int),
            ),
            spec_full_count(before) <= u32::MAX,
        decreases y,
    {
        y -= 1;
        let ghost done = spec_kept_rows(before.skip(y + 1));
        proof {
            assert(before.skip(y as int).skip(1) =~= before.skip(y + 1));
            assert(before.skip(y as int)[0] == before[y as int]);
            assert(game_map@[y as int] == before[y as int]);
            lemma_kept_split(before, y as int);
        }
        if game_map.row_is_full(y) {
            game_map.remove_row(y);
            lines_cleared += 1;
            assert(game_map@ =~= before.take(y as int) + done);
        } else {
            assert(game_map@ =~= before.take(y as int) + (seq![before[y as int]] + done));
        }
    }
    proof {
        assert(before.skip(0) =~= before);
        assert(before.take(0) =~= Seq::empty());
        assert(game_map@ =~= spec_kept_rows(before));
        lemma_kept_and_full(before);
        lemma_cleared_keeps_shape(before);
    }
    let mut filled: u32 = 0;
    while filled < lines_cleared
        invariant
            filled <= lines_cleared,
            lines_cleared == spec_full_count(before),
            spec_kept_rows(before).len() + spec_full_count(before) == before.len(),
            before.len() == height,
            game_map@ == spec_empty_rows(filled as nat) + spec_kept_rows(before),
        decreases lines_cleared - filled,
    {
        game_map.insert_empty_row_at_top();
        filled += 1;
        assert(game_map@ =~= spec_empty_rows(filled as nat) + spec_kept_rows(before));
    }

    if lines_cleared > 0 {
        score.value += lines_cleared * POINTS_PER_LINE;
        level.lines_cleared_in_level += lines_cleared;
        if level.lines_cleared_in_level >= LINES_PER_LEVEL {
            level.value += 1;
            level.lines_cleared_in_level = 0;
        }
    }
}

} // verus!
