//! The burndown of the course: achievements left over time, read from saved catalogs.
use vstd::prelude::*;

use crate::projection::monus;

verus! {

/// The number of achievements of the course, from which the burndown counts down.
pub const COURSE_ACHIEVEMENTS: usize = 65;

/// Whether field `k` of a saved row reads `true`.
pub open spec fn marked(row: Seq<String>, k: int) -> bool {
    k < row.len() && row[k]@ == "true"@
}

/// The number of rows whose field `k` reads `true`.
pub open spec fn marked_count(rows: Seq<Vec<String>>, k: int) -> nat
    decreases rows.len(),
{
    if rows.len() == 0 {
        0
    } else {
        marked_count(rows.drop_last(), k) + if marked(rows.last()@, k) {
            1nat
        } else {
            0nat
        }
    }
}

/// The field of a saved row that marks an achievement done.
pub const DONE_FIELD: usize = 4;

/// The field of a saved row that marks an achievement to be presented soon.
pub const PLANNED_FIELD: usize = 5;

fn is_marked(row: &Vec<String>, k: usize) -> (r: bool)
    ensures
        r == marked(row@, k as int),
{
    if k < row.len() {
        let mark = String::from_str("true");
        row[k] == mark
    } else {
        false
    }
}

/// Counts, over the rows of one saved catalog, the achievements marked done and those marked
/// to be presented soon.
pub fn count_marks(rows: &Vec<Vec<String>>) -> (r: (usize, usize))
    ensures
        r.0 == marked_count(rows@, DONE_FIELD as int),
        r.1 == marked_count(rows@, PLANNED_FIELD as int),
{
    let ghost s = rows@;
    let mut done: usize = 0;
    let mut planned: usize = 0;
    let mut i: usize = 0;
    while i < rows.len()
        invariant
            s == rows@,
            i <= s.len(),
            done == marked_count(s.take(i as int), DONE_FIELD as int),
            planned == marked_count(s.take(i as int), PLANNED_FIELD as int),
            done <= i,
            planned <= i,
        decreases s.len() - i,
    {
        proof {
            assert(s.take(i as int + 1).drop_last() =~= s.take(i as int));
        }
        if is_marked(&rows[i], DONE_FIELD) {
            done = done + 1;
        }
        if is_marked(&rows[i], PLANNED_FIELD) {
            planned = planned + 1;
        }
        i = i + 1;
    }
    proof {
        assert(s.take(s.len() as int) =~= s);
    }
    (done, planned)
}

/// One point of the burndown: the achievements left, and those left once the ones planned
/// for presentation are done too (neither below zero).
pub fn burndown_point(done: usize, planned: usize) -> (r: (usize, usize))
    ensures
        r.0 == monus(COURSE_ACHIEVEMENTS as nat, done as nat),
        r.1 == monus(r.0 as nat, planned as nat),
{
    let left: usize = if done <= COURSE_ACHIEVEMENTS {
        COURSE_ACHIEVEMENTS - done
    } else {
        0
    };
    let after: usize = if planned <= left {
        left - planned
    } else {
        0
    };
    (left, after)
}

} // verus!
