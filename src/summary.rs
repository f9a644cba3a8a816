//! How much of the catalog is done, by grade, by sprint and in all.
use vstd::prelude::*;

use crate::achievements::{Achievement, Sprint};
use crate::projection::count_where;

verus! {

/// The number of achievements required for grade `g`.
pub open spec fn graded_count(s: Seq<Achievement>, g: i8) -> nat {
    count_where(s, |a: Achievement| a.grade == g)
}

/// The number of those that are done.
pub open spec fn graded_done_count(s: Seq<Achievement>, g: i8) -> nat {
    count_where(s, |a: Achievement| a.grade == g && a.done)
}

/// The number of achievements of sprint `p`.
pub open spec fn sprint_count(s: Seq<Achievement>, p: Sprint) -> nat {
    count_where(s, |a: Achievement| a.sprint == p)
}

/// The number of those that are done.
pub open spec fn sprint_done_count(s: Seq<Achievement>, p: Sprint) -> nat {
    count_where(s, |a: Achievement| a.sprint == p && a.done)
}

/// The number of achievements that are done.
pub open spec fn done_count(s: Seq<Achievement>) -> nat {
    count_where(s, |a: Achievement| a.done)
}

/// How many achievements of grade `g` are done, and how many there are.
pub fn grade_progress(achievements: &Vec<Achievement>, g: i8) -> (r: (usize, usize))
    ensures
        r.0 == graded_done_count(achievements@, g),
        r.1 == graded_count(achievements@, g),
{
    let ghost s = achievements@;
    let mut done: usize = 0;
    let mut all: usize = 0;
    let mut i: usize = 0;
    while i < achievements.len()
        invariant
            s == achievements@,
            i <= s.len(),
            done == graded_done_count(s.take(i as int), g),
            all == graded_count(s.take(i as int), g),
            all <= i,
            done <= all,
        decreases s.len() - i,
    {
        proof {
            assert(s.take(i as int + 1).drop_last() =~= s.take(i as int));
        }
        if achievements[i].grade == g {
            all = all + 1;
            if achievements[i].done {
                done = done + 1;
            }
        }
        i = i + 1;
    }
    proof {
        assert(s.take(s.len() as int) =~= s);
    }
    (done, all)
}

/// How many achievements of sprint `p` are done, and how many there are.
pub fn sprint_progress(achievements: &Vec<Achievement>, p: Sprint) -> (r: (usize, usize))
    ensures
        r.0 == sprint_done_count(achievements@, p),
        r.1 == sprint_count(achievements@, p),
{
    let ghost s = achievements@;
    let mut done: usize = 0;
    let mut all: usize = 0;
    let mut i: usize = 0;
    while i < achievements.len()
        invariant
            s == achievements@,
            i <= s.len(),
            done == sprint_done_count(s.take(i as int), p),
            all == sprint_count(s.take(i as int), p),
            all <= i,
            done <= all,
        decreases s.len() - i,
    {
        proof {
            assert(s.take(i as int + 1).drop_last() =~= s.take(i as int));
        }
        if achievements[i].sprint == p {
            all = all + 1;
            if achievements[i].done {
                done = done + 1;
            }
        }
        i = i + 1;
    }
    proof {
        assert(s.take(s.len() as int) =~= s);
    }
    (done, all)
}

/// How many achievements are done, and how many there are.
pub fn catalog_progress(achievements: &Vec<Achievement>) -> (r: (usize, usize))
    ensures
        r.0 == done_count(achievements@),
        r.1 == achievements@.len(),
{
    let ghost s = achievements@;
    let mut done: usize = 0;
    let mut i: usize = 0;
    while i < achievements.len()
        invariant
            s == achievements@,
            i <= s.len(),
            done == done_count(s.take(i as int)),
            done <= i,
        decreases s.len() - i,
    {
        proof {
            assert(s.take(i as int + 1).drop_last() =~= s.take(i as int));
        }
        if achievements[i].done {
            done = done + 1;
        }
        i = i + 1;
    }
    proof {
        assert(s.take(s.len() as int) =~= s);
    }
    (done, achievements.len())
}

} // verus!
