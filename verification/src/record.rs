//! The mathematical model of the store: a table of rows with unique keys,
//! in it the one record that holds the application state, and what holds
//! of that record under any sequence of saves. The model says what the
//! statements of the register mean; what the engine really holds is in its
//! file, and no contract of the executable code equates the two.

use vstd::prelude::*;
use crate::statements::APP_STATE_KEY;

verus! {

/// The table without rows.
pub open spec fn no_rows() -> Map<Seq<char>, Seq<char>> {
    Map::empty()
}

/// The value a table holds under `key`, or `None` where it has no such row.
pub open spec fn value_at(rows: Map<Seq<char>, Seq<char>>, key: Seq<char>) -> Option<Seq<char>> {
    if rows.contains_key(key) {
        Some(rows[key])
    } else {
        None
    }
}

/// The application-state record of a table: absent before the first save,
/// present with the last saved value afterwards.
pub open spec fn state_of(rows: Map<Seq<char>, Seq<char>>) -> Option<Seq<char>> {
    value_at(rows, APP_STATE_KEY@)
}

/// The table after the application state has been saved as `value`: the
/// record is replaced as a whole, every other row is kept.
pub open spec fn with_state(rows: Map<Seq<char>, Seq<char>>, value: Seq<char>) -> Map<
    Seq<char>,
    Seq<char>,
> {
    rows.insert(APP_STATE_KEY@, value)
}

/// The table after each of `values` has been saved, one at a time and in
/// this order.
pub open spec fn after_saves(rows: Map<Seq<char>, Seq<char>>, values: Seq<Seq<char>>) -> Map<
    Seq<char>,
    Seq<char>,
>
    decreases values.len(),
{
    if values.len() == 0 {
        rows
    } else {
        with_state(after_saves(rows, values.drop_last()), values.last())
    }
}

/// What was saved is what is read: after a save of `value` the record is
/// present and holds exactly `value`, whatever the table held before.
pub proof fn save_then_load(rows: Map<Seq<char>, Seq<char>>, value: Seq<char>)
    ensures
        state_of(with_state(rows, value)) == Some(value),
{
}

/// A table without rows, which is what a newly created store holds, has no
/// application-state record.
pub proof fn fresh_store_is_absent()
    ensures
        state_of(no_rows()) == None::<Seq<char>>,
{
}

/// A second save overwrites and does not duplicate: the table is the one a
/// single save of the second value would have left, it has the same keys as
/// after the first save, and the record holds the second value.
pub proof fn second_save_overwrites(
    rows: Map<Seq<char>, Seq<char>>,
    first: Seq<char>,
    second: Seq<char>,
)
    ensures
        with_state(with_state(rows, first), second) == with_state(rows, second),
        with_state(with_state(rows, first), second).dom() == with_state(rows, first).dom(),
        state_of(with_state(with_state(rows, first), second)) == Some(second),
{
    let once = with_state(rows, first);
    let twice = with_state(once, second);
    assert(twice =~= with_state(rows, second));
    assert(twice.dom() =~= once.dom());
}

/// A save touches no row but the application-state record.
pub proof fn save_keeps_other_rows(
    rows: Map<Seq<char>, Seq<char>>,
    value: Seq<char>,
    key: Seq<char>,
)
    requires
        key != APP_STATE_KEY@,
    ensures
        value_at(with_state(rows, value), key) == value_at(rows, key),
{
}

/// Saves that run one at a time leave what the last of them wrote: however
/// many there were and whatever they wrote, the table is the one that the
/// last save alone would have left, so the record holds the value of
/// exactly that save, whole and unmerged, and the table has one row for it.
pub proof fn last_save_wins(rows: Map<Seq<char>, Seq<char>>, values: Seq<Seq<char>>)
    requires
        values.len() > 0,
    ensures
        after_saves(rows, values) == with_state(rows, values.last()),
        state_of(after_saves(rows, values)) == Some(values.last()),
        after_saves(rows, values).dom() == rows.dom().insert(APP_STATE_KEY@),
    decreases values.len(),
{
    let earlier = values.drop_last();
    assert(after_saves(rows, values) == with_state(after_saves(rows, earlier), values.last()));
    if earlier.len() > 0 {
        last_save_wins(rows, earlier);
        second_save_overwrites(rows, earlier.last(), values.last());
    } else {
        assert(after_saves(rows, earlier) == rows);
    }
    assert(after_saves(rows, values).dom() =~= rows.dom().insert(APP_STATE_KEY@));
}

} // verus!
