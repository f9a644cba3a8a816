//! The projection model: counting the catalog, and the four paces at which work is counted
//! as done from one checkpoint to the next.
use vstd::arithmetic::div_mod::lemma_div_is_ordered_by_denominator;
use vstd::prelude::*;

use crate::achievements::{Achievement, AchievementPresention, PresentationType, sprint_due};

verus! {

/// At a checkpoint that has passed, the target counters advance by at most this many
/// achievements, however large the per-checkpoint maximum is.
pub const PAST_STEP_CAP: usize = 4;

/// Whether an achievement takes part in the projection for a target grade: it is presented
/// at a lab and required at or below that grade.
pub open spec fn is_eligible(a: Achievement, grade: i8) -> bool {
    a.presenting_type == AchievementPresention::Single(PresentationType::Lab) && a.grade <= grade
}

/// Whether an eligible achievement is due by the instant `date`.
pub open spec fn is_due(a: Achievement, grade: i8, date: i64) -> bool {
    is_eligible(a, grade) && sprint_due(a.sprint) <= date
}

/// Whether an achievement is due by `date` and already done.
pub open spec fn is_done_due(a: Achievement, grade: i8, date: i64) -> bool {
    is_due(a, grade, date) && a.done
}

/// How many items of `s` satisfy `p`.
pub open spec fn count_where(s: Seq<Achievement>, p: spec_fn(Achievement) -> bool) -> nat
    decreases s.len(),
{
    if s.len() == 0 {
        0
    } else {
        count_where(s.drop_last(), p) + if p(s.last()) {
            1nat
        } else {
            0nat
        }
    }
}

/// The number of eligible achievements: the ceiling of every counter.
pub open spec fn eligible_count(s: Seq<Achievement>, grade: i8) -> nat {
    count_where(s, |a: Achievement| is_eligible(a, grade))
}

/// The number of eligible achievements due by `date`.
pub open spec fn due_count(s: Seq<Achievement>, grade: i8, date: i64) -> nat {
    count_where(s, |a: Achievement| is_due(a, grade, date))
}

/// The number of eligible achievements due by `date` that are done.
pub open spec fn done_due_count(s: Seq<Achievement>, grade: i8, date: i64) -> nat {
    count_where(s, |a: Achievement| is_done_due(a, grade, date))
}

/// A predicate that implies another counts no more items.
pub proof fn lemma_count_where_implies(
    s: Seq<Achievement>,
    p: spec_fn(Achievement) -> bool,
    q: spec_fn(Achievement) -> bool,
)
    requires
        forall|a: Achievement| #[trigger] p(a) ==> q(a),
    ensures
        count_where(s, p) <= count_where(s, q),
    decreases s.len(),
{
    if s.len() > 0 {
        lemma_count_where_implies(s.drop_last(), p, q);
    }
}

/// No predicate counts more items than there are.
pub proof fn lemma_count_where_len(s: Seq<Achievement>, p: spec_fn(Achievement) -> bool)
    ensures
        count_where(s, p) <= s.len(),
    decreases s.len(),
{
    if s.len() > 0 {
        lemma_count_where_len(s.drop_last(), p);
    }
}

/// Achievements due by a checkpoint, and those of them that are done, are among the
/// eligible ones.
pub proof fn lemma_due_within_eligible(s: Seq<Achievement>, grade: i8, date: i64)
    ensures
        done_due_count(s, grade, date) <= due_count(s, grade, date),
        due_count(s, grade, date) <= eligible_count(s, grade),
        eligible_count(s, grade) <= s.len(),
{
    lemma_count_where_implies(
        s,
        |a: Achievement| is_done_due(a, grade, date),
        |a: Achievement| is_due(a, grade, date),
    );
    lemma_count_where_implies(
        s,
        |a: Achievement| is_due(a, grade, date),
        |a: Achievement| is_eligible(a, grade),
    );
    lemma_count_where_len(s, |a: Achievement| is_eligible(a, grade));
}

/// Whether an eligible achievement is not yet due by `date`.
pub open spec fn is_not_due(a: Achievement, grade: i8, date: i64) -> bool {
    is_eligible(a, grade) && sprint_due(a.sprint) > date
}

/// The number of eligible achievements not yet due by `date`.
pub open spec fn not_due_count(s: Seq<Achievement>, grade: i8, date: i64) -> nat {
    count_where(s, |a: Achievement| is_not_due(a, grade, date))
}

/// Every eligible achievement is either due by `date` or not yet due.
pub proof fn lemma_due_split(s: Seq<Achievement>, grade: i8, date: i64)
    ensures
        eligible_count(s, grade) == due_count(s, grade, date) + not_due_count(s, grade, date),
    decreases s.len(),
{
    if s.len() > 0 {
        lemma_due_split(s.drop_last(), grade, date);
    }
}

/// A later date has at least as many achievements due, and done among them.
pub proof fn lemma_due_grows_with_date(s: Seq<Achievement>, grade: i8, d1: i64, d2: i64)
    requires
        d1 <= d2,
    ensures
        due_count(s, grade, d1) <= due_count(s, grade, d2),
        done_due_count(s, grade, d1) <= done_due_count(s, grade, d2),
{
    lemma_count_where_implies(
        s,
        |a: Achievement| is_due(a, grade, d1),
        |a: Achievement| is_due(a, grade, d2),
    );
    lemma_count_where_implies(
        s,
        |a: Achievement| is_done_due(a, grade, d1),
        |a: Achievement| is_done_due(a, grade, d2),
    );
}

/// A higher grade has at least as many eligible achievements not yet due.
pub proof fn lemma_not_due_grows_with_grade(s: Seq<Achievement>, low: i8, high: i8, date: i64)
    requires
        low <= high,
    ensures
        not_due_count(s, low, date) <= not_due_count(s, high, date),
{
    lemma_count_where_implies(
        s,
        |a: Achievement| is_not_due(a, low, date),
        |a: Achievement| is_not_due(a, high, date),
    );
}

/// Counts, in one pass over the catalog, the eligible achievements due by `date` and those of
/// them that are done.
pub(crate) fn count_due(achievements: &Vec<Achievement>, grade: i8, date: i64) -> (r: (usize, usize))
    ensures
        r.0 == due_count(achievements@, grade, date),
        r.1 == done_due_count(achievements@, grade, date),
{
    let ghost s = achievements@;
    let mut due: usize = 0;
    let mut done: usize = 0;
    let mut j: usize = 0;
    while j < achievements.len()
        invariant
            s == achievements@,
            j <= s.len(),
            due == due_count(s.take(j as int), grade, date),
            done == done_due_count(s.take(j as int), grade, date),
        decreases s.len() - j,
    {
        let a = &achievements[j];
        proof {
            assert(s.take(j as int + 1).drop_last() =~= s.take(j as int));
            lemma_due_within_eligible(s.take(j as int), grade, date);
            assert(s.take(j as int).len() == j);
        }



        let eligible = a.grade <= grade && a.presenting_type == AchievementPresention::Single(
            PresentationType::Lab,
        );
        if eligible && a.sprint.to_date() <= date {
            due = due + 1;
            if a.done {
                done = done + 1;
            }
        }
        j = j + 1;
    }
    proof {
        assert(s.take(s.len() as int) =~= s);
    }
    (due, done)
}

/// The number of eligible achievements.
pub(crate) fn count_eligible(achievements: &Vec<Achievement>, grade: i8) -> (r: usize)
    ensures
        r == eligible_count(achievements@, grade),
{
    let ghost s = achievements@;
    let mut n: usize = 0;
    let mut j: usize = 0;
    while j < achievements.len()
        invariant
            s == achievements@,
            j <= s.len(),
            n == eligible_count(s.take(j as int), grade),
        decreases s.len() - j,
    {
        let a = &achievements[j];
        proof {
            assert(s.take(j as int + 1).drop_last() =~= s.take(j as int));
            lemma_due_within_eligible(s.take(j as int), grade, 0);
            assert(s.take(j as int).len() == j);
        }
        if a.grade <= grade && a.presenting_type == AchievementPresention::Single(
            PresentationType::Lab,
        ) {
            n = n + 1;
        }
        j = j + 1;
    }
    proof {
        assert(s.take(s.len() as int) =~= s);
    }
    n
}


// ---------------------------------------------------------------------------------------
// The four paces, counted as work done
// ---------------------------------------------------------------------------------------

/// `a - b`, or zero where `b` is the larger.
pub open spec fn monus(a: nat, b: nat) -> nat {
    if a >= b {
        (a - b) as nat
    } else {
        0
    }
}

/// The smaller of two counts.
pub open spec fn least(a: nat, b: nat) -> nat {
    if a <= b {
        a
    } else {
        b
    }
}

/// `a / b` rounded up.
pub open spec fn ceil_div(a: nat, b: nat) -> nat
    recommends
        b > 0,
{
    a / b + if a % b == 0 {
        0nat
    } else {
        1nat
    }
}

/// One step of the optimal pace: toward the work that is due, by at most `cap`.
pub open spec fn toward(c: nat, due: nat, cap: nat) -> nat {
    c + least(cap, monus(due, c))
}

/// One step of the minimum pace: like `toward`, and by no more than the even share of the
/// remaining eligible work over the `left` checkpoints that remain.
pub open spec fn paced(c: nat, due: nat, total: nat, cap: nat, left: nat) -> nat {
    c + least(cap, least(monus(due, c), ceil_div(monus(total, c), left)))
}

/// One step at a checkpoint that has passed: toward what was actually done of the due work,
/// by at most `PAST_STEP_CAP`.
pub open spec fn actual(c: nat, due: nat, done: nat) -> nat {
    c + least(PAST_STEP_CAP as nat, least(monus(due, c), monus(done, c)))
}

/// The work counted as done by each of the four paces.
pub struct Tally {
    pub optimal: nat,
    pub minimum: nat,
    pub target: nat,
    pub current_minimum: nat,
}

/// The inputs of one projection: the catalog, the target grade, the per-checkpoint maximum,
/// the present instant and the checkpoint dates.
pub struct Plan {
    pub achievements: Seq<Achievement>,
    pub grade: i8,
    pub cap: nat,
    pub now: i64,
    pub dates: Seq<i64>,
}

impl Plan {
    /// The number of eligible achievements.
    pub open spec fn total(self) -> nat {
        eligible_count(self.achievements, self.grade)
    }

    /// The number of eligible achievements due by checkpoint `i`.
    pub open spec fn due(self, i: int) -> nat {
        due_count(self.achievements, self.grade, self.dates[i])
    }

    /// The number of those that are done.
    pub open spec fn done(self, i: int) -> nat {
        done_due_count(self.achievements, self.grade, self.dates[i])
    }

    /// Whether checkpoint `i` has passed.
    pub open spec fn passed(self, i: int) -> bool {
        self.now > self.dates[i]
    }

    /// The tally after checkpoint `i`, from the tally `t` before it.
    pub open spec fn step(self, t: Tally, i: int) -> Tally {
        let due = self.due(i);
        let left = (self.dates.len() - i) as nat;
        let optimal = toward(t.optimal, due, self.cap);
        let minimum = paced(t.minimum, due, self.total(), self.cap, left);
        if self.passed(i) {
            Tally {
                optimal,
                minimum,
                target: actual(t.target, due, self.done(i)),
                current_minimum: actual(t.current_minimum, due, self.done(i)),
            }
        } else {
            Tally {
                optimal,
                minimum,
                target: toward(t.target, due, self.cap),
                current_minimum: paced(t.current_minimum, due, self.total(), self.cap, left),
            }
        }
    }

    /// The tally after the first `k` checkpoints.
    pub open spec fn tally(self, k: nat) -> Tally
        decreases k,
    {
        if k == 0 {
            Tally { optimal: 0, minimum: 0, target: 0, current_minimum: 0 }
        } else {
            self.step(self.tally((k - 1) as nat), k - 1)
        }
    }
}

/// Every count of `a` is at most the matching count of `b`.
pub open spec fn tally_le(a: Tally, b: Tally) -> bool {
    a.optimal <= b.optimal && a.minimum <= b.minimum && a.target <= b.target && a.current_minimum
        <= b.current_minimum
}

/// Every count of `t` is at most `n`.
pub open spec fn tally_within(t: Tally, n: nat) -> bool {
    t.optimal <= n && t.minimum <= n && t.target <= n && t.current_minimum <= n
}

/// A step neither loses work nor counts past the eligible total.
pub proof fn lemma_step_grows_within(p: Plan, t: Tally, i: int)
    requires
        0 <= i < p.dates.len(),
        tally_within(t, p.total()),
    ensures
        tally_le(t, p.step(t, i)),
        tally_within(p.step(t, i), p.total()),
{
    lemma_due_within_eligible(p.achievements, p.grade, p.dates[i]);
}

/// After any number of checkpoints the tally stays within the eligible total, and each
/// checkpoint adds to it.
pub proof fn lemma_tally_grows_within(p: Plan, k: nat)
    requires
        k <= p.dates.len(),
    ensures
        tally_within(p.tally(k), p.total()),
        k > 0 ==> tally_le(p.tally((k - 1) as nat), p.tally(k)),
    decreases k,
{
    if k > 0 {
        lemma_tally_grows_within(p, (k - 1) as nat);
        lemma_step_grows_within(p, p.tally((k - 1) as nat), k - 1);
    }
}

/// The tally after more checkpoints holds at least the work of the tally after fewer.
pub proof fn lemma_tally_monotone(p: Plan, j: nat, k: nat)
    requires
        j <= k <= p.dates.len(),
    ensures
        tally_le(p.tally(j), p.tally(k)),
    decreases k - j,
{
    if j < k {
        lemma_tally_monotone(p, j, (k - 1) as nat);
        lemma_tally_grows_within(p, k);
    }
}


pub(crate) fn step_toward(c: usize, due: usize, cap: usize) -> (r: usize)
    ensures
        r == toward(c as nat, due as nat, cap as nat),
{
    let gap: usize = if due >= c {
        due - c
    } else {
        0
    };
    if cap <= gap {
        c + cap
    } else {
        c + gap
    }
}

pub(crate) fn step_paced(c: usize, due: usize, total: usize, cap: usize, left: usize) -> (r: usize)
    requires
        left > 0,
    ensures
        r == paced(c as nat, due as nat, total as nat, cap as nat, left as nat),
{
    let gap: usize = if due >= c {
        due - c
    } else {
        0
    };
    let rest: usize = if total >= c {
        total - c
    } else {
        0
    };
    let share: usize = if rest % left == 0 {
        rest / left
    } else {
        proof {
            if left == 1 {
                assert(rest % 1 == 0);
            }
            lemma_div_is_ordered_by_denominator(rest as int, 2, left as int);
        }
        rest / left + 1
    };
    let allowed = if gap <= share {
        gap
    } else {
        share
    };
    if cap <= allowed {
        c + cap
    } else {
        c + allowed
    }
}

pub(crate) fn step_actual(c: usize, due: usize, done: usize) -> (r: usize)
    ensures
        r == actual(c as nat, due as nat, done as nat),
{
    let gap: usize = if due >= c {
        due - c
    } else {
        0
    };
    let achieved: usize = if done >= c {
        done - c
    } else {
        0
    };
    let allowed = if gap <= achieved {
        gap
    } else {
        achieved
    };
    if PAST_STEP_CAP <= allowed {
        c + PAST_STEP_CAP
    } else {
        c + allowed
    }
}

} // verus!
