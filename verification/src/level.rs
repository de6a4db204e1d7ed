//! Levels: reading them from their text layout, and handing them out in
//! order, the small ones first, then the large ones.
use vstd::prelude::*;
use vstd::utf8::encode_utf8;
use crate::fixed::{ratio, ratio_of};

verus! {

/// The kinds of entity that a level layout can place.
#[derive(Clone, Copy, Debug, PartialEq, Eq, Structural)]
pub enum EntityType {
    FlyingEnemy,
    SquareEnemy,
    Boss,
    Player,
}

/// An entity to create, and the fractions of the field's width and height
/// at which it stands.
pub type EntityRecord = (EntityType, i64, i64);

/// Everything needed to build one level.
#[derive(Clone, Debug)]
pub struct LevelMetadata {
    pub layout: Vec<EntityRecord>,
}

impl View for LevelMetadata {
    type V = Seq<EntityRecord>;

    open spec fn view(&self) -> Seq<EntityRecord> {
        self.layout@
    }
}

impl LevelMetadata {
    pub fn new(layout: Vec<EntityRecord>) -> (metadata: LevelMetadata)
        ensures
            metadata.layout == layout,
    {
        LevelMetadata { layout }
    }

    /// The level's layout.
    pub fn get_layout(&self) -> (layout: &[EntityRecord])
        ensures
            layout@ == self@,
    {
        self.layout.as_slice()
    }
}

/// The text layouts of all levels: each level is a list of rows, the top
/// row first, and each character of a row is one cell.
#[derive(Clone, Debug)]
pub struct LevelConfig {
    pub small_levels: Vec<Vec<String>>,
    pub large_levels: Vec<Vec<String>>,
}

/// The levels still to be played. Levels are taken from the end of each
/// list, the small ones first.
#[derive(Clone, Debug)]
pub struct Levels {
    pub small_levels: Vec<LevelMetadata>,
    pub large_levels: Vec<LevelMetadata>,
    pub use_small_levels: bool,
}

/// What [`Levels::pop`] hands out.
#[derive(Debug)]
pub enum LevelStatus {
    /// A small level that is not the last of them.
    SmallLevel(LevelMetadata),
    /// A large level.
    LargeLevel(LevelMetadata),
    /// The last small level: the cutscene follows it.
    TransitionTime(LevelMetadata),
    /// No level is left.
    AllDone,
}

/// The state of a level sequence as plain values.
pub struct LevelQueue {
    pub small: Seq<LevelMetadata>,
    pub large: Seq<LevelMetadata>,
    pub use_small: bool,
}

impl View for Levels {
    type V = LevelQueue;

    open spec fn view(&self) -> LevelQueue {
        LevelQueue {
            small: self.small_levels@,
            large: self.large_levels@,
            use_small: self.use_small_levels,
        }
    }
}

impl LevelQueue {
    /// What one pop hands out; nothing where the small levels are asked for
    /// and there never were any.
    pub open spec fn status(self) -> Option<LevelStatus> {
        if self.use_small {
            if self.small.len() == 0 {
                None
            } else if self.small.len() == 1 {
                Some(LevelStatus::TransitionTime(self.small.last()))
            } else {
                Some(LevelStatus::SmallLevel(self.small.last()))
            }
        } else {
            if self.large.len() == 0 {
                Some(LevelStatus::AllDone)
            } else {
                Some(LevelStatus::LargeLevel(self.large.last()))
            }
        }
    }

    /// The queue after one pop.
    pub open spec fn popped(self) -> LevelQueue {
        if self.use_small {
            if self.small.len() == 0 {
                self
            } else {
                LevelQueue {
                    small: self.small.drop_last(),
                    use_small: self.small.len() != 1,
                    ..self
                }
            }
        } else {
            if self.large.len() == 0 {
                self
            } else {
                LevelQueue { large: self.large.drop_last(), ..self }
            }
        }
    }

    /// The queue after `n` pops.
    pub open spec fn popped_times(self, n: nat) -> LevelQueue
        decreases n,
    {
        if n == 0 {
            self
        } else {
            self.popped_times((n - 1) as nat).popped()
        }
    }
}

impl Levels {
    /// A sequence that starts with the small levels.
    pub fn new(small_levels: Vec<LevelMetadata>, large_levels: Vec<LevelMetadata>) -> (levels:
        Levels)
        ensures
            levels@ == (LevelQueue { small: small_levels@, large: large_levels@, use_small: true }),
    {
        Levels { small_levels, large_levels, use_small_levels: true }
    }

    /// Hands out the next level: the small levels first, the last of them
    /// marked as the one before the cutscene, then the large levels, then
    /// `AllDone` for ever. A sequence that was made without any small level
    /// hands out nothing.
    pub fn pop(&mut self) -> (status: Option<LevelStatus>)
        ensures
            status == old(self)@.status(),
            final(self)@ == old(self)@.popped(),
    {
        if self.use_small_levels {
            match self.small_levels.pop() {
                Some(metadata) => {
                    if self.small_levels.len() == 0 {
                        self.use_small_levels = false;
                        Some(LevelStatus::TransitionTime(metadata))
                    } else {
                        Some(LevelStatus::SmallLevel(metadata))
                    }
                },
                None => None,
            }
        } else {
            match self.large_levels.pop() {
                Some(metadata) => Some(LevelStatus::LargeLevel(metadata)),
                None => Some(LevelStatus::AllDone),
            }
        }
    }
}

/// The entity that a character of a layout stands for.
pub open spec fn entity_of(c: char) -> Option<EntityType> {
    if c == 'F' {
        Some(EntityType::FlyingEnemy)
    } else if c == 'S' {
        Some(EntityType::SquareEnemy)
    } else if c == 'B' {
        Some(EntityType::Boss)
    } else if c == 'P' {
        Some(EntityType::Player)
    } else {
        None
    }
}

/// The number of columns of a row: its length in bytes.
pub open spec fn columns(row: Seq<char>) -> nat {
    encode_utf8(row).len()
}

/// The position of a cell as fractions of the field: its column over the
/// number of columns, its row, counted from the bottom, over the number of
/// rows.
pub open spec fn cell_position(
    x_grid_pos: nat,
    y_grid_pos: nat,
    num_rows: nat,
    num_columns: nat,
) -> (i64, i64) {
    (ratio(x_grid_pos, num_columns), ratio(y_grid_pos, num_rows))
}

/// The records of the first `upto` cells of a row that is the `y`-th from
/// the bottom of `num_rows` rows.
pub open spec fn row_records(row: Seq<char>, y: nat, num_rows: nat, upto: nat) -> Seq<EntityRecord>
    decreases upto,
{
    if upto == 0 {
        Seq::empty()
    } else {
        let before = row_records(row, y, num_rows, (upto - 1) as nat);
        let position = cell_position((upto - 1) as nat, y, num_rows, columns(row));
        match entity_of(row[upto - 1]) {
            Some(e) => before.push((e, position.0, position.1)),
            None => before,
        }
    }
}

/// The records of the lowest `upto` rows of a level, the bottom row first.
pub open spec fn rows_records(rows: Seq<String>, upto: nat) -> Seq<EntityRecord>
    decreases upto,
{
    if upto == 0 {
        Seq::empty()
    } else {
        let row = rows[rows.len() - upto]@;
        rows_records(rows, (upto - 1) as nat) + row_records(
            row,
            (upto - 1) as nat,
            rows.len(),
            row.len(),
        )
    }
}

/// The layout of a level: one record for each cell that holds an entity,
/// row by row from the bottom, each row from the left.
pub open spec fn level_layout(rows: Seq<String>) -> Seq<EntityRecord> {
    rows_records(rows, rows.len())
}

/// Maps a cell of the text layout to fractions of the field.
pub fn get_coordinates(
    x_grid_pos: usize,
    y_grid_pos: usize,
    num_rows: usize,
    num_columns: usize,
) -> (position: (i64, i64))
    ensures
        position == cell_position(
            x_grid_pos as nat,
            y_grid_pos as nat,
            num_rows as nat,
            num_columns as nat,
        ),
{
    let x = ratio_of(x_grid_pos, num_columns);
    let y = ratio_of(y_grid_pos, num_rows);
    (x, y)
}

/// The entity that a character stands for, if any.
pub fn entity_for(c: char) -> (entity: Option<EntityType>)
    ensures
        entity == entity_of(c),
{
    if c == 'F' {
        Some(EntityType::FlyingEnemy)
    } else if c == 'S' {
        Some(EntityType::SquareEnemy)
    } else if c == 'B' {
        Some(EntityType::Boss)
    } else if c == 'P' {
        Some(EntityType::Player)
    } else {
        None
    }
}

/// Reads one level from its rows of text, given top row first: the entities
/// with their positions, counted from the bottom row up.
pub fn get_level_entities(rows: &Vec<String>) -> (metadata: LevelMetadata)
    ensures
        metadata@ == level_layout(rows@),
{
    let num_rows = rows.len();
    let mut records: Vec<EntityRecord> = Vec::new();
    let mut y_index: usize = 0;
    while y_index < num_rows
        invariant
            num_rows == rows@.len(),
            y_index <= num_rows,
            records@ == rows_records(rows@, y_index as nat),
        decreases num_rows - y_index,
    {
        let r: &str = rows[num_rows - 1 - y_index].as_str();
        let num_columns = r.as_bytes().len();
        let num_chars = r.unicode_len();
        let ghost before = records@;
        let mut x_index: usize = 0;
        while x_index < num_chars
            invariant
                num_chars == r@.len(),
                num_columns == columns(r@),
                x_index <= num_chars,
                y_index < num_rows,
                records@ == before + row_records(r@, y_index as nat, num_rows as nat, x_index as nat),
            decreases num_chars - x_index,
        {
            let s = r.get_char(x_index);
            let entity = entity_for(s);
            let (x, y) = get_coordinates(x_index, y_index, num_rows, num_columns);
            let ghost old_records = records@;
            if let Some(e) = entity {
                records.push((e, x, y));
            }
            proof {
                let prev = row_records(r@, y_index as nat, num_rows as nat, x_index as nat);
                let next = row_records(r@, y_index as nat, num_rows as nat, (x_index + 1) as nat);
                assert(old_records == before + prev);
                if entity.is_some() {
                    assert(next == prev.push((entity.unwrap(), x, y)));
                    assert(records@ =~= before + next);
                } else {
                    assert(next == prev);
                }
            }
            x_index += 1;
        }
        y_index += 1;
    }
    LevelMetadata::new(records)
}

/// Reads every level of a list, keeping their order.
pub fn extract_levels(level_rows: Vec<Vec<String>>) -> (levels: Vec<LevelMetadata>)
    ensures
        levels@.len() == level_rows@.len(),
        forall|i: int| 0 <= i < levels@.len() ==> (#[trigger] levels@[i])@ == level_layout(level_rows@[i]@),
{
    let mut levels_vec: Vec<LevelMetadata> = Vec::new();
    let mut i: usize = 0;
    while i < level_rows.len()
        invariant
            i <= level_rows@.len(),
            levels_vec@.len() == i,
            forall|j: int| 0 <= j < i ==> (#[trigger] levels_vec@[j])@ == level_layout(level_rows@[j]@),
        decreases level_rows@.len() - i,
    {
        let next_level = get_level_entities(&level_rows[i]);
        levels_vec.push(next_level);
        i += 1;
    }
    levels_vec
}

/// Reads the whole configuration into a sequence that starts with the small
/// levels.
pub fn get_all_levels(level_config: LevelConfig) -> (levels: Levels)
    ensures
        levels@.use_small,
        levels@.small.len() == level_config.small_levels@.len(),
        levels@.large.len() == level_config.large_levels@.len(),
        forall|i: int| 0 <= i < levels@.small.len() ==> (#[trigger] levels@.small[i])@ == level_layout(level_config.small_levels@[i]@),
        forall|i: int| 0 <= i < levels@.large.len() ==> (#[trigger] levels@.large[i])@ == level_layout(level_config.large_levels@[i]@),
{
    Levels {
        small_levels: extract_levels(level_config.small_levels),
        large_levels: extract_levels(level_config.large_levels),
        use_small_levels: true,
    }
}

/// Once no level is left, every pop hands out `AllDone` and changes
/// nothing.
pub proof fn lemma_all_done_is_final(queue: LevelQueue)
    requires
        !queue.use_small,
        queue.large.len() == 0,
    ensures
        queue.status() == Some(LevelStatus::AllDone),
        queue.popped() == queue,
{
}

/// The small levels are left for good: no pop turns back to them, and the
/// pop that leaves them is the one that hands out `TransitionTime`.
pub proof fn lemma_small_levels_end_once(queue: LevelQueue)
    ensures
        !queue.use_small ==> !queue.popped().use_small,
        queue.status() is Some && queue.status().unwrap() is TransitionTime <==> queue.use_small
            && !queue.popped().use_small,
        queue.use_small && !queue.popped().use_small ==> queue.popped().small.len() == 0,
{
}

/// The queue after `n` pops, in closed form, for a sequence that starts
/// with at least one small level.
pub open spec fn queue_after(queue: LevelQueue, n: nat) -> LevelQueue {
    let s = queue.small.len();
    let l = queue.large.len();
    if n < s {
        LevelQueue { small: queue.small.take(s - n), ..queue }
    } else if n <= s + l {
        LevelQueue {
            small: Seq::empty(),
            large: queue.large.take(l - (n - s)),
            use_small: false,
        }
    } else {
        LevelQueue { small: Seq::empty(), large: Seq::empty(), use_small: false }
    }
}

/// Pops reach the closed form of [`queue_after`].
pub proof fn lemma_queue_after(queue: LevelQueue, n: nat)
    requires
        queue.use_small,
        queue.small.len() >= 1,
    ensures
        queue.popped_times(n) == queue_after(queue, n),
    decreases n,
{
    let s = queue.small.len();
    let l = queue.large.len();
    if n == 0 {
        assert(queue.small.take(s as int) =~= queue.small);
    } else {
        let m = (n - 1) as nat;
        lemma_queue_after(queue, m);
        let before = queue_after(queue, m);
        assert(queue.popped_times(n) == before.popped());
        if m < s {
            assert(before.small.drop_last() =~= queue.small.take(s - m - 1));
            if m + 1 == s {
                assert(queue.small.take(0) =~= Seq::<LevelMetadata>::empty());
                assert(queue.large.take(l as int) =~= queue.large);
            }
        } else if m < s + l {
            assert(before.large.drop_last() =~= queue.large.take(l - (m - s) - 1));
        } else {
            assert(queue.large.take(0) =~= Seq::<LevelMetadata>::empty());
        }
    }
}

/// The order in which a sequence hands out its levels: with `s >= 1` small
/// and `l` large levels, the first `s - 1` pops give the small levels from
/// the last to the second, each as `SmallLevel`; the next gives the first
/// small level as `TransitionTime`; the next `l` give the large levels from
/// the last to the first; and every pop after that gives `AllDone`.
pub proof fn lemma_pop_order(queue: LevelQueue, n: nat)
    requires
        queue.use_small,
        queue.small.len() >= 1,
    ensures
        ({
            let s = queue.small.len();
            let l = queue.large.len();
            let status = queue.popped_times(n).status();
            &&& n + 1 < s ==> status == Some(LevelStatus::SmallLevel(queue.small[s - 1 - n]))
            &&& n + 1 == s ==> status == Some(LevelStatus::TransitionTime(queue.small[0]))
            &&& s <= n < s + l ==> status == Some(
                LevelStatus::LargeLevel(queue.large[l - 1 - (n - s)]),
            )
            &&& n >= s + l ==> status == Some(LevelStatus::AllDone)
        }),
{
    lemma_queue_after(queue, n);
}

/// A row has at least as many columns as cells.
pub proof fn lemma_columns_cover_cells(row: Seq<char>)
    ensures
        row.len() <= columns(row),
    decreases row.len(),
{
    if row.len() > 0 {
        lemma_columns_cover_cells(row.drop_first());
        assert(vstd::utf8::encode_scalar(row[0] as u32).len() >= 1);
    }
}

/// A row of `n` cells gives at most `n` records, and each record lies at
/// fractions of the field that are at least zero and less than one.
pub proof fn lemma_row_records(row: Seq<char>, y: nat, num_rows: nat, upto: nat)
    requires
        upto <= row.len(),
        y < num_rows,
    ensures
        row_records(row, y, num_rows, upto).len() <= upto,
        forall|i: int|
            0 <= i < row_records(row, y, num_rows, upto).len() ==> {
                let record = #[trigger] row_records(row, y, num_rows, upto)[i];
                0 <= record.1 < crate::fixed::SCALE && 0 <= record.2 < crate::fixed::SCALE
            },
    decreases upto,
{
    if upto > 0 {
        lemma_row_records(row, y, num_rows, (upto - 1) as nat);
        lemma_columns_cover_cells(row);
        let x = (upto - 1) as nat;
        let c = columns(row);
        assert(0 <= (x * crate::fixed::SCALE) / (c as int) < crate::fixed::SCALE) by (nonlinear_arith)
            requires
                0 <= x < c,
        ;
        assert(0 <= (y * crate::fixed::SCALE) / (num_rows as int) < crate::fixed::SCALE)
            by (nonlinear_arith)
            requires
                0 <= y < num_rows,
        ;
    }
}

/// Every record of a layout lies at fractions of the field that are at
/// least zero and less than one, so that every entity of a level that was
/// read from text is placed inside the field.
pub proof fn lemma_layout_in_range(rows: Seq<String>, upto: nat)
    requires
        upto <= rows.len(),
    ensures
        forall|i: int|
            0 <= i < rows_records(rows, upto).len() ==> {
                let record = #[trigger] rows_records(rows, upto)[i];
                0 <= record.1 < crate::fixed::SCALE && 0 <= record.2 < crate::fixed::SCALE
            },
    decreases upto,
{
    if upto > 0 {
        lemma_layout_in_range(rows, (upto - 1) as nat);
        let row = rows[rows.len() - upto]@;
        lemma_row_records(row, (upto - 1) as nat, rows.len(), row.len());
        let before = rows_records(rows, (upto - 1) as nat);
        let added = row_records(row, (upto - 1) as nat, rows.len(), row.len());
        let all = rows_records(rows, upto);
        assert(all == before + added);
        assert forall|i: int| 0 <= i < all.len() implies {
            let record = #[trigger] all[i];
            0 <= record.1 < crate::fixed::SCALE && 0 <= record.2 < crate::fixed::SCALE
        } by {
            if i < before.len() {
                assert(all[i] == before[i]);
            } else {
                assert(all[i] == added[i - before.len()]);
            }
        }
    }
}

} // verus!
