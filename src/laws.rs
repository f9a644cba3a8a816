//! Laws that every projection obeys, stated over the tracker's counters.
use vstd::arithmetic::div_mod::{lemma_fundamental_div_mod, lemma_mod_bound};
use vstd::prelude::*;

use crate::achievements::Achievement;
use crate::progress_tracker::{
    Lab, ProgressTracker, ProgressTrackerMode, lab_shows, shown, strictly_increasing,
};
use crate::projection::{
    PAST_STEP_CAP, Plan, Tally, ceil_div, done_due_count, due_count, eligible_count, is_eligible,
    least, lemma_count_where_implies, lemma_due_grows_with_date, lemma_due_split,
    lemma_due_within_eligible, lemma_not_due_grows_with_grade, lemma_tally_grows_within,
    lemma_tally_monotone, monus, tally_within,
};

verus! {

/// Raising the target grade never shrinks the number of eligible achievements.
pub proof fn lemma_total_grows_with_grade(s: Seq<Achievement>, low: i8, high: i8)
    requires
        low <= high,
    ensures
        eligible_count(s, low) <= eligible_count(s, high),
{
    lemma_count_where_implies(
        s,
        |a: Achievement| is_eligible(a, low),
        |a: Achievement| is_eligible(a, high),
    );
}

/// How far a counter moved from `before` to `after` in the direction that `mode` counts:
/// down while counting work left, up while counting work done.
pub open spec fn advance(mode: ProgressTrackerMode, before: int, after: int) -> int {
    match mode {
        ProgressTrackerMode::Left => before - after,
        ProgressTrackerMode::Done => after - before,
    }
}

/// The four counters of a checkpoint, as integers.
pub struct Counters {
    pub optimal: int,
    pub minimum: int,
    pub target: int,
    pub current_minimum: int,
}

/// The counters of a checkpoint.
pub open spec fn counters(l: Lab) -> Counters {
    Counters {
        optimal: l.optimal as int,
        minimum: l.minimum as int,
        target: l.target as int,
        current_minimum: l.current_minimum as int,
    }
}

/// The counters just before checkpoint `i`: those of the checkpoint before it, or, at the
/// first checkpoint, the value every counter starts from.
pub open spec fn previous(t: ProgressTracker, i: int) -> Counters {
    if i == 0 {
        let start = shown(t.mode, t.total(), 0) as int;
        Counters { optimal: start, minimum: start, target: start, current_minimum: start }
    } else {
        counters(t.labs@[i - 1])
    }
}

/// The counters of checkpoint `i` show the tally after `i + 1` checkpoints, which is within
/// the eligible total.
proof fn lemma_lab_shows_tally(t: ProgressTracker, now: i64, i: int)
    requires
        t.projected_at(now),
        0 <= i < t.labs@.len(),
    ensures
        lab_shows(t.labs@[i], t.mode, t.total(), t.plan(now).tally((i + 1) as nat)),
        tally_within(t.plan(now).tally((i + 1) as nat), t.total()),
        tally_within(t.plan(now).tally(i as nat), t.total()),
        t.plan(now).dates.len() == t.labs@.len(),
{
    lemma_tally_grows_within(t.plan(now), (i + 1) as nat);
    lemma_tally_grows_within(t.plan(now), i as nat);
}

/// Within one projection every counter moves one way only along the checkpoints: it never
/// rises while counting work left, and never falls while counting work done.
pub proof fn lemma_counters_monotone(t: ProgressTracker, now: i64, i: int, j: int)
    requires
        t.projected_at(now),
        0 <= i <= j < t.labs@.len(),
    ensures
        t.mode == ProgressTrackerMode::Left ==> {
            &&& t.labs@[j].optimal <= t.labs@[i].optimal
            &&& t.labs@[j].minimum <= t.labs@[i].minimum
            &&& t.labs@[j].target <= t.labs@[i].target
            &&& t.labs@[j].current_minimum <= t.labs@[i].current_minimum
        },
        t.mode == ProgressTrackerMode::Done ==> {
            &&& t.labs@[i].optimal <= t.labs@[j].optimal
            &&& t.labs@[i].minimum <= t.labs@[j].minimum
            &&& t.labs@[i].target <= t.labs@[j].target
            &&& t.labs@[i].current_minimum <= t.labs@[j].current_minimum
        },
{
    lemma_lab_shows_tally(t, now, i);
    lemma_lab_shows_tally(t, now, j);
    lemma_tally_monotone(t.plan(now), (i + 1) as nat, (j + 1) as nat);
}

/// Every counter of every checkpoint, and every summary counter, lies between zero and the
/// number of eligible achievements.
pub proof fn lemma_counters_bounded(t: ProgressTracker, now: i64, i: int)
    requires
        t.projected_at(now),
        0 <= i < t.labs@.len(),
    ensures
        0 <= t.labs@[i].optimal <= t.total(),
        0 <= t.labs@[i].minimum <= t.total(),
        0 <= t.labs@[i].target <= t.total(),
        0 <= t.labs@[i].current_minimum <= t.total(),
        0 <= t.optimal <= t.total(),
        0 <= t.minimum <= t.total(),
        0 <= t.target <= t.total(),
        0 <= t.current_minimum <= t.total(),
{
    lemma_lab_shows_tally(t, now, i);
    lemma_tally_grows_within(t.plan(now), t.labs@.len());
}

/// Counting work left and counting work done describe the same progress: for the same
/// catalog, settings and checkpoints, projected as of the same instant, each counter that
/// counts work left is the eligible total less the matching counter that counts work done,
/// at every checkpoint and in the summary.
pub proof fn lemma_mode_duality(left: ProgressTracker, done: ProgressTracker, now: i64, i: int)
    requires
        left.mode == ProgressTrackerMode::Left,
        done.mode == ProgressTrackerMode::Done,
        left.achievements@ == done.achievements@,
        left.target_grade == done.target_grade,
        left.max_per_lab == done.max_per_lab,
        left.dates() == done.dates(),
        left.projected_at(now),
        done.projected_at(now),
        0 <= i < left.labs@.len(),
    ensures
        left.total() == done.total(),
        left.labs@[i].optimal == left.total() - done.labs@[i].optimal,
        left.labs@[i].minimum == left.total() - done.labs@[i].minimum,
        left.labs@[i].target == left.total() - done.labs@[i].target,
        left.labs@[i].current_minimum == left.total() - done.labs@[i].current_minimum,
        left.optimal == left.total() - done.optimal,
        left.minimum == left.total() - done.minimum,
        left.target == left.total() - done.target,
        left.current_minimum == left.total() - done.current_minimum,
{
    assert(left.plan(now) == done.plan(now));
    assert(left.labs@.len() == left.dates().len());
    assert(done.labs@.len() == done.dates().len());
    lemma_lab_shows_tally(left, now, i);
    lemma_lab_shows_tally(done, now, i);
    lemma_tally_grows_within(left.plan(now), left.labs@.len());
}

/// At a checkpoint still ahead, no counter moves by more than the per-checkpoint maximum. At
/// a checkpoint that has passed, the target counters move by at most `PAST_STEP_CAP`, and by
/// no more than the achievements actually done by then that they had not yet counted.
pub proof fn lemma_pacing_cap(t: ProgressTracker, now: i64, i: int)
    requires
        t.projected_at(now),
        0 <= i < t.labs@.len(),
    ensures
        now <= t.labs@[i].date ==> {
            &&& 0 <= advance(t.mode, previous(t, i).optimal, t.labs@[i].optimal as int)
                <= t.max_per_lab
            &&& 0 <= advance(t.mode, previous(t, i).minimum, t.labs@[i].minimum as int)
                <= t.max_per_lab
            &&& 0 <= advance(t.mode, previous(t, i).target, t.labs@[i].target as int)
                <= t.max_per_lab
            &&& 0 <= advance(
                t.mode,
                previous(t, i).current_minimum,
                t.labs@[i].current_minimum as int,
            ) <= t.max_per_lab
        },
        now > t.labs@[i].date ==> {
            let done = done_due_count(t.achievements@, t.target_grade, t.labs@[i].date);
            &&& 0 <= advance(t.mode, previous(t, i).target, t.labs@[i].target as int)
                <= PAST_STEP_CAP
            &&& advance(t.mode, previous(t, i).target, t.labs@[i].target as int) <= monus(
                done,
                shown(t.mode, t.total(), previous(t, i).target as nat),
            )
            &&& 0 <= advance(
                t.mode,
                previous(t, i).current_minimum,
                t.labs@[i].current_minimum as int,
            ) <= PAST_STEP_CAP
            &&& advance(
                t.mode,
                previous(t, i).current_minimum,
                t.labs@[i].current_minimum as int,
            ) <= monus(done, shown(t.mode, t.total(), previous(t, i).current_minimum as nat))
        },
{
    let p = t.plan(now);
    lemma_lab_shows_tally(t, now, i);
    lemma_due_within_eligible(t.achievements@, t.target_grade, t.labs@[i].date);
    assert(p.dates[i] == t.labs@[i].date);
    assert(p.tally((i + 1) as nat) == p.step(p.tally(i as nat), i));
    if i > 0 {
        lemma_lab_shows_tally(t, now, i - 1);
    }
}


/// The optimal work still left after checkpoint `i`, in either mode.
pub open spec fn optimal_left(t: ProgressTracker, i: int) -> int {
    t.total() - shown(t.mode, t.total(), t.labs@[i].optimal as nat)
}

/// For the same checkpoints, a plan for a higher grade never has less optimal work left.
proof fn lemma_optimal_left_grows_with_grade(p1: Plan, p2: Plan, k: nat)
    requires
        p1.achievements == p2.achievements,
        p1.cap == p2.cap,
        p1.now == p2.now,
        p1.dates == p2.dates,
        p1.grade <= p2.grade,
        k <= p1.dates.len(),
    ensures
        p1.total() - p1.tally(k).optimal <= p2.total() - p2.tally(k).optimal,
    decreases k,
{
    lemma_tally_grows_within(p1, k);
    lemma_tally_grows_within(p2, k);
    lemma_total_grows_with_grade(p1.achievements, p1.grade, p2.grade);
    if k > 0 {
        let i = k - 1;
        lemma_optimal_left_grows_with_grade(p1, p2, (k - 1) as nat);
        lemma_tally_grows_within(p1, (k - 1) as nat);
        lemma_tally_grows_within(p2, (k - 1) as nat);
        let d = p1.dates[i];
        lemma_due_split(p1.achievements, p1.grade, d);
        lemma_due_split(p2.achievements, p2.grade, d);
        lemma_not_due_grows_with_grade(p1.achievements, p1.grade, p2.grade, d);
        lemma_due_within_eligible(p1.achievements, p1.grade, d);
        lemma_due_within_eligible(p2.achievements, p2.grade, d);
        assert(p1.tally(k) == p1.step(p1.tally((k - 1) as nat), i));
        assert(p2.tally(k) == p2.step(p2.tally((k - 1) as nat), i));
    }
}

/// Raising the target grade never lets the optimal pace leave less work: for the same
/// catalog, maximum and checkpoints, projected as of the same instant, the optimal work left
/// after every checkpoint is at least as large for the higher grade.
pub proof fn lemma_grade_keeps_optimal_pace(
    low: ProgressTracker,
    high: ProgressTracker,
    now: i64,
    i: int,
)
    requires
        low.achievements@ == high.achievements@,
        low.max_per_lab == high.max_per_lab,
        low.dates() == high.dates(),
        low.target_grade <= high.target_grade,
        low.projected_at(now),
        high.projected_at(now),
        0 <= i < low.labs@.len(),
    ensures
        optimal_left(low, i) <= optimal_left(high, i),
{
    assert(low.labs@.len() == low.dates().len());
    assert(high.labs@.len() == high.dates().len());
    lemma_lab_shows_tally(low, now, i);
    lemma_lab_shows_tally(high, now, i);
    lemma_optimal_left_grows_with_grade(low.plan(now), high.plan(now), (i + 1) as nat);
}


/// `a / b` rounded up is at most `a`, reaches `a` when multiplied back by `b`, and is at
/// most any `m` with `a <= b * m`.
proof fn lemma_ceil_div_bounds(a: nat, b: nat, m: nat)
    requires
        b >= 1,
    ensures
        ceil_div(a, b) <= a,
        ceil_div(a, b) * b >= a,
        a <= b * m ==> ceil_div(a, b) <= m,
{
    let q = a / b;
    let r = a % b;
    lemma_fundamental_div_mod(a as int, b as int);
    lemma_mod_bound(a as int, b as int);
    assert(q <= a) by (nonlinear_arith)
        requires
            a == b * q + r,
            b >= 1,
            r >= 0,
            q >= 0,
    ;
    if r == 0 {
        assert(ceil_div(a, b) == q);
        assert(q * b >= a) by (nonlinear_arith)
            requires
                a == b * q + r,
                r == 0,
        ;
        assert(a <= b * m ==> q <= m) by (nonlinear_arith)
            requires
                a == b * q,
                b >= 1,
                q >= 0,
        ;
    } else {
        assert(ceil_div(a, b) == q + 1);
        assert(q + 1 <= a) by (nonlinear_arith)
            requires
                a == b * q + r,
                b >= 1,
                r >= 1,
                q >= 0,
        ;
        assert((q + 1) * b >= a) by (nonlinear_arith)
            requires
                a == b * q + r,
                r < b,
        ;
        assert(a <= b * m ==> q + 1 <= m) by (nonlinear_arith)
            requires
                a == b * q + r,
                b >= 1,
                r >= 1,
                q >= 0,
        ;
    }
}

/// With strictly increasing dates, the first checkpoint has the earliest date.
proof fn lemma_first_date_earliest(d: Seq<i64>, i: int)
    requires
        strictly_increasing(d),
        0 <= i < d.len(),
    ensures
        d[0] <= d[i],
    decreases i,
{
    if i > 0 {
        lemma_first_date_earliest(d, i - 1);
        assert(d[i - 1] < d[i]);
    }
}

/// With strictly increasing dates, an earlier checkpoint has an earlier date.
proof fn lemma_dates_ordered(d: Seq<i64>, j: int, i: int)
    requires
        strictly_increasing(d),
        0 <= j <= i < d.len(),
    ensures
        d[j] <= d[i],
    decreases i - j,
{
    if j < i {
        lemma_dates_ordered(d, j, i - 1);
        assert(d[i - 1] < d[i]);
    }
}

/// Whether the work left by a tally is at most `bound` for each of the four paces.
spec fn left_within(total: nat, t: Tally, bound: int) -> bool {
    &&& total - t.optimal <= bound
    &&& total - t.minimum <= bound
    &&& total - t.target <= bound
    &&& total - t.current_minimum <= bound
}

/// When all eligible work was done and due before the first checkpoint and every checkpoint
/// has passed, each checkpoint takes at least `m` (the smaller of the maximum and
/// `PAST_STEP_CAP`) off the work left, as long as any is left.
proof fn lemma_all_done_catch_up(p: Plan, k: nat)
    requires
        k <= p.dates.len(),
        strictly_increasing(p.dates),
        p.dates.len() >= 1,
        p.done(0) == p.total(),
        p.now > p.dates[p.dates.len() - 1],
        p.total() <= p.dates.len() * least(p.cap, PAST_STEP_CAP as nat),
    ensures
        left_within(
            p.total(),
            p.tally(k),
            (p.dates.len() - k) * least(p.cap, PAST_STEP_CAP as nat),
        ),
    decreases k,
{
    let n = p.dates.len();
    let m = least(p.cap, PAST_STEP_CAP as nat);
    let total = p.total();
    lemma_tally_grows_within(p, k);
    if k == 0 {
    } else {
        let i = k - 1;
        lemma_all_done_catch_up(p, (k - 1) as nat);
        lemma_tally_grows_within(p, (k - 1) as nat);
        lemma_dates_ordered(p.dates, 0, i);
        lemma_dates_ordered(p.dates, i, n - 1);
        lemma_due_grows_with_date(p.achievements, p.grade, p.dates[0], p.dates[i]);
        lemma_due_within_eligible(p.achievements, p.grade, p.dates[i]);
        lemma_due_within_eligible(p.achievements, p.grade, p.dates[0]);
        assert(p.due(i) == total);
        assert(p.done(i) == total);
        assert(p.passed(i));
        let t = p.tally(i as nat);
        assert(p.tally(k) == p.step(t, i));
        let left = (n - i) as nat;
        assert(left * m == (left - 1) * m + m) by (nonlinear_arith);
        let r = (total - t.minimum) as nat;
        let q = ceil_div(r, left);
        lemma_ceil_div_bounds(r, left, m);
        assert(r - q <= (left - 1) * m) by (nonlinear_arith)
            requires
                q * left >= r,
                q <= m,
                left >= 1,
        ;
        assert(monus(total, t.minimum) == r);
    }
}

/// When every eligible achievement was done and due before the first checkpoint, every
/// checkpoint has passed, and the eligible total is at most the number of checkpoints times
/// the smaller of the maximum and `PAST_STEP_CAP`, each counter ends at the total counting
/// work done, and at zero counting work left: at the last checkpoint and in the summary.
pub proof fn lemma_all_done_reaches_total(t: ProgressTracker, now: i64)
    requires
        t.projected_at(now),
        strictly_increasing(t.dates()),
        t.labs@.len() >= 1,
        done_due_count(t.achievements@, t.target_grade, t.labs@[0].date) == t.total(),
        now > t.labs@[t.labs@.len() - 1].date,
        t.total() <= t.labs@.len() * least(t.max_per_lab as nat, PAST_STEP_CAP as nat),
    ensures
        t.labs@[t.labs@.len() - 1].optimal == shown(t.mode, t.total(), t.total()),
        t.labs@[t.labs@.len() - 1].minimum == shown(t.mode, t.total(), t.total()),
        t.labs@[t.labs@.len() - 1].target == shown(t.mode, t.total(), t.total()),
        t.labs@[t.labs@.len() - 1].current_minimum == shown(t.mode, t.total(), t.total()),
        t.optimal == shown(t.mode, t.total(), t.total()),
        t.minimum == shown(t.mode, t.total(), t.total()),
        t.target == shown(t.mode, t.total(), t.total()),
        t.current_minimum == shown(t.mode, t.total(), t.total()),
{
    let p = t.plan(now);
    let n = t.labs@.len();
    assert(p.dates.len() == n);
    assert(p.dates[0] == t.labs@[0].date);
    assert(p.dates[n - 1] == t.labs@[n - 1].date);
    lemma_all_done_catch_up(p, n);
    lemma_lab_shows_tally(t, now, n - 1);
}

/// Where every eligible achievement is due by the first checkpoint and the maximum never
/// binds, the minimum pace is the even share of the work left: at each checkpoint it
/// advances by the work left before it divided by the checkpoints that remain, rounded up.
pub proof fn lemma_even_minimum_pace(t: ProgressTracker, now: i64, i: int)
    requires
        t.projected_at(now),
        strictly_increasing(t.dates()),
        0 <= i < t.labs@.len(),
        due_count(t.achievements@, t.target_grade, t.labs@[0].date) == t.total(),
        t.max_per_lab >= t.total(),
    ensures
        advance(t.mode, previous(t, i).minimum, t.labs@[i].minimum as int) == ceil_div(
            monus(t.total(), shown(t.mode, t.total(), previous(t, i).minimum as nat)),
            (t.labs@.len() - i) as nat,
        ),
{
    let p = t.plan(now);
    let n = t.labs@.len();
    lemma_lab_shows_tally(t, now, i);
    if i > 0 {
        lemma_lab_shows_tally(t, now, i - 1);
    }
    assert(p.dates[i] == t.labs@[i].date);
    assert(p.dates[0] == t.labs@[0].date);
    lemma_first_date_earliest(p.dates, i);
    lemma_due_grows_with_date(t.achievements@, t.target_grade, p.dates[0], p.dates[i]);
    lemma_due_within_eligible(t.achievements@, t.target_grade, p.dates[i]);
    assert(p.due(i) == t.total());
    assert(p.tally((i + 1) as nat) == p.step(p.tally(i as nat), i));
    let c = p.tally(i as nat).minimum;
    lemma_ceil_div_bounds(monus(t.total(), c), (n - i) as nat, 0);
}

} // verus!
