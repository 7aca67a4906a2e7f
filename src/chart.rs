use vstd::prelude::*;

use crate::stats::TrainingRecord;

verus! {

/// The largest of `values`, or 0 for none.
pub open spec fn max_value(values: Seq<u16>) -> nat
    decreases values.len(),
{
    if values.len() == 0 {
        0
    } else {
        let rest = max_value(values.drop_last());
        if values.last() as nat > rest {
            values.last() as nat
        } else {
            rest
        }
    }
}

/// The top of a chart's value axis: `empty_top` for no values, else the first
/// multiple of `step` above the largest value.
pub open spec fn axis_top(values: Seq<u16>, step: u16, empty_top: u16) -> nat {
    if values.len() == 0 {
        empty_top as nat
    } else {
        (max_value(values) + step - max_value(values) % (step as nat)) as nat
    }
}

/// The words per minute of each record, in order.
pub fn wpm_history(records: &[TrainingRecord]) -> (r: Vec<u16>)
    ensures
        r@.len() == records@.len(),
        forall|i: int| 0 <= i < records@.len() ==> r@[i] == records@[i].stats.typing_speed.wpm(),
{
    let mut r: Vec<u16> = Vec::new();
    let mut i: usize = 0;
    while i < records.len()
        invariant
            0 <= i <= records@.len(),
            r@.len() == i,
            forall|j: int| 0 <= j < i ==> r@[j] == records@[j].stats.typing_speed.wpm(),
        decreases records@.len() - i,
    {
        r.push(records[i].stats.typing_speed.words_per_minute());
        i = i + 1;
    }
    r
}

/// The error count of each record, in order.
pub fn error_history(records: &[TrainingRecord]) -> (r: Vec<u16>)
    ensures
        r@.len() == records@.len(),
        forall|i: int| 0 <= i < records@.len() ==> r@[i] == records@[i].stats.errors.total_error_count,
{
    let mut r: Vec<u16> = Vec::new();
    let mut i: usize = 0;
    while i < records.len()
        invariant
            0 <= i <= records@.len(),
            r@.len() == i,
            forall|j: int| 0 <= j < i ==> r@[j] == records@[j].stats.errors.total_error_count,
        decreases records@.len() - i,
    {
        r.push(records[i].stats.errors.total_error_count);
        i = i + 1;
    }
    r
}

/// The top of a chart's value axis over `values`.
pub fn axis_max(values: &Vec<u16>, step: u16, empty_top: u16) -> (r: u32)
    requires
        step > 0,
    ensures
        r == axis_top(values@, step, empty_top),
{
    if values.len() == 0 {
        return empty_top as u32;
    }
    let mut max: u16 = 0;
    let mut i: usize = 0;
    while i < values.len()
        invariant
            0 <= i <= values@.len(),
            max == max_value(values@.subrange(0, i as int)),
        decreases values@.len() - i,
    {
        assert(values@.subrange(0, i + 1).drop_last() =~= values@.subrange(0, i as int));
        if values[i] > max {
            max = values[i];
        }
        i = i + 1;
    }
    assert(values@.subrange(0, i as int) =~= values@);
    max as u32 + step as u32 - (max % step) as u32
}

} // verus!
