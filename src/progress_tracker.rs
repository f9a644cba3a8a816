//! The progress tracker: the course's checkpoints and the counters that the projection gives
//! each of them, counting work left or work done.
use vstd::prelude::*;

use crate::achievements::Achievement;
use crate::dates::{date_text_timestamp, now_timestamp, parse_date_text};
use crate::projection::{
    Plan, Tally, count_due, count_eligible, eligible_count, lemma_tally_grows_within, step_actual,
    step_paced, step_toward, tally_within,
};

verus! {

/// Whether the counters show the work left or the work done.
#[derive(Clone, Copy, Debug, PartialEq, Eq, Structural)]
pub enum ProgressTrackerMode {
    Left,
    Done,
}

impl ProgressTrackerMode {
    /// The other mode.
    pub open spec fn toggle_spec(self) -> Self {
        match self {
            ProgressTrackerMode::Left => ProgressTrackerMode::Done,
            ProgressTrackerMode::Done => ProgressTrackerMode::Left,
        }
    }

    /// The other mode.
    pub fn toggle(&self) -> (r: Self)
        ensures
            r == self.toggle_spec(),
    {
        match self {
            ProgressTrackerMode::Left => ProgressTrackerMode::Done,
            ProgressTrackerMode::Done => ProgressTrackerMode::Left,
        }
    }
}

/// A count of done work as a mode shows it: the eligible work left, or the work done.
pub open spec fn shown(mode: ProgressTrackerMode, total: nat, c: nat) -> nat {
    match mode {
        ProgressTrackerMode::Left => (total - c) as nat,
        ProgressTrackerMode::Done => c,
    }
}

fn show(mode: ProgressTrackerMode, total: usize, c: usize) -> (r: usize)
    requires
        c <= total,
    ensures
        r == shown(mode, total as nat, c as nat),
{
    match mode {
        ProgressTrackerMode::Left => total - c,
        ProgressTrackerMode::Done => c,
    }
}

/// A checkpoint of the course: its date (seconds since the Unix epoch) and the four counters
/// the last projection gave it.
#[derive(Clone, Copy, Debug, PartialEq, Eq, Structural)]
pub struct Lab {
    pub date: i64,
    pub optimal: usize,
    pub minimum: usize,
    pub target: usize,
    pub current_minimum: usize,
}

/// Whether the counters of `l` are the tally `t` as `mode` shows it.
pub open spec fn lab_shows(l: Lab, mode: ProgressTrackerMode, total: nat, t: Tally) -> bool {
    &&& l.optimal == shown(mode, total, t.optimal)
    &&& l.minimum == shown(mode, total, t.minimum)
    &&& l.target == shown(mode, total, t.target)
    &&& l.current_minimum == shown(mode, total, t.current_minimum)
}

/// Why a tracker could not be set up.
#[derive(Clone, Copy, Debug, PartialEq, Eq, Structural)]
pub enum TrackerError {
    /// The per-checkpoint maximum is zero: no pace could ever advance.
    ZeroMaxPerLab,
    /// The schedule names no checkpoint.
    EmptySchedule,
    /// The checkpoint date at this position of the schedule is not a date like `Sep 2, 2024`.
    UnparseableDate { index: usize },
    /// The checkpoint date at this position of the schedule is not later than the one
    /// before it.
    UnorderedSchedule { index: usize },
}

impl Lab {
    /// A checkpoint on the date that `date` names (like `Sep 2, 2024`), with its counters at
    /// zero; `UnparseableDate` at position 0 where the text names no date.
    pub fn new(date: String) -> (r: Result<Lab, TrackerError>)
        ensures
            match date_text_timestamp(date@) {
                Some(d) => r == Ok::<Lab, TrackerError>(
                    Lab { date: d, optimal: 0, minimum: 0, target: 0, current_minimum: 0 },
                ),
                None => r == Err::<Lab, TrackerError>(TrackerError::UnparseableDate { index: 0 }),
            },
    {
        match parse_date_text(date.as_str()) {
            Some(d) => Ok(Lab { date: d, optimal: 0, minimum: 0, target: 0, current_minimum: 0 }),
            None => Err(TrackerError::UnparseableDate { index: 0 }),
        }
    }
}

/// The projection engine: the catalog, the checkpoints, and the settings that the counters
/// are computed from.
pub struct ProgressTracker {
    pub achievements: Vec<Achievement>,
    pub mode: ProgressTrackerMode,
    pub labs: Vec<Lab>,
    pub max_per_lab: u8,
    pub target_grade: i8,
    pub optimal: usize,
    pub minimum: usize,
    pub target: usize,
    pub current_minimum: usize,
}

/// The views of a sequence of strings.
pub open spec fn texts_of(v: Seq<String>) -> Seq<Seq<char>> {
    v.map_values(|s: String| s@)
}

/// The course's checkpoint dates.
pub open spec fn default_schedule_text() -> Seq<Seq<char>> {
    seq![
        "Sep 2, 2024"@,
        "Sep 4, 2024"@,
        "Sep 5, 2024"@,
        "Sep 9, 2024"@,
        "Sep 11, 2024"@,
        "Sep 12, 2024"@,
        "Sep 16, 2024"@,
        "Sep 19, 2024"@,
        "Sep 23, 2024"@,
        "Sep 26, 2024"@,
        "Oct 1, 2024"@,
        "Oct 3, 2024"@,
        "Oct 7, 2024"@,
        "Oct 10, 2024"@,
        "Oct 14, 2024"@,
        "Oct 17, 2024"@,
        "Oct 21, 2024"@,
        "Oct 25, 2024"@,
        "Nov 1, 2024"@,
        "Nov 4, 2024"@,
        "Nov 6, 2024"@,
        "Nov 11, 2024"@,
        "Nov 14, 2024"@,
        "Nov 19, 2024"@,
        "Nov 21, 2024"@,
        "Nov 25, 2024"@,
        "Nov 28, 2024"@,
        "Dec 2, 2024"@,
        "Dec 5, 2024"@,
        "Dec 9, 2024"@,
        "Dec 12, 2024"@,
        "Dec 16, 2024"@,
    ]
}

/// The course's checkpoint dates, as text.
pub fn default_schedule() -> (r: Vec<String>)
    ensures
        texts_of(r@) == default_schedule_text(),
{
    let mut v: Vec<String> = Vec::new();
    v.push(String::from_str("Sep 2, 2024"));
    v.push(String::from_str("Sep 4, 2024"));
    v.push(String::from_str("Sep 5, 2024"));
    v.push(String::from_str("Sep 9, 2024"));
    v.push(String::from_str("Sep 11, 2024"));
    v.push(String::from_str("Sep 12, 2024"));
    v.push(String::from_str("Sep 16, 2024"));
    v.push(String::from_str("Sep 19, 2024"));
    v.push(String::from_str("Sep 23, 2024"));
    v.push(String::from_str("Sep 26, 2024"));
    v.push(String::from_str("Oct 1, 2024"));
    v.push(String::from_str("Oct 3, 2024"));
    v.push(String::from_str("Oct 7, 2024"));
    v.push(String::from_str("Oct 10, 2024"));
    v.push(String::from_str("Oct 14, 2024"));
    v.push(String::from_str("Oct 17, 2024"));
    v.push(String::from_str("Oct 21, 2024"));
    v.push(String::from_str("Oct 25, 2024"));
    v.push(String::from_str("Nov 1, 2024"));
    v.push(String::from_str("Nov 4, 2024"));
    v.push(String::from_str("Nov 6, 2024"));
    v.push(String::from_str("Nov 11, 2024"));
    v.push(String::from_str("Nov 14, 2024"));
    v.push(String::from_str("Nov 19, 2024"));
    v.push(String::from_str("Nov 21, 2024"));
    v.push(String::from_str("Nov 25, 2024"));
    v.push(String::from_str("Nov 28, 2024"));
    v.push(String::from_str("Dec 2, 2024"));
    v.push(String::from_str("Dec 5, 2024"));
    v.push(String::from_str("Dec 9, 2024"));
    v.push(String::from_str("Dec 12, 2024"));
    v.push(String::from_str("Dec 16, 2024"));
    assert(texts_of(v@) =~= default_schedule_text());
    v
}

/// The position of the first text that is no checkpoint date, if there is one.
pub open spec fn first_unparseable(texts: Seq<Seq<char>>) -> Option<int>
    decreases texts.len(),
{
    if texts.len() == 0 {
        None
    } else {
        match first_unparseable(texts.drop_last()) {
            Some(k) => Some(k),
            None => if date_text_timestamp(texts.last()) is None {
                Some(texts.len() - 1)
            } else {
                None
            },
        }
    }
}

/// The error that setting up a tracker with this maximum and schedule meets, if any: a zero
/// maximum first, then an empty schedule, then the first date that cannot be read.
pub open spec fn setup_error(max_per_lab: u8, texts: Seq<Seq<char>>) -> Option<TrackerError> {
    if max_per_lab == 0 {
        Some(TrackerError::ZeroMaxPerLab)
    } else if texts.len() == 0 {
        Some(TrackerError::EmptySchedule)
    } else {
        match first_unparseable(texts) {
            Some(k) => Some(TrackerError::UnparseableDate { index: k as usize }),
            None => if strictly_increasing(parsed_dates(texts)) {
                None
            } else {
                Some(
                    TrackerError::UnorderedSchedule {
                        index: (choose|k: int| is_first_unordered(parsed_dates(texts), k)) as usize,
                    },
                )
            },
        }
    }
}

/// The dates that the texts name (where each names one).
pub open spec fn parsed_dates(texts: Seq<Seq<char>>) -> Seq<i64> {
    Seq::new(texts.len(), |i: int| date_text_timestamp(texts[i])->Some_0)
}

/// Whether each date is later than the one before it.
pub open spec fn strictly_increasing(d: Seq<i64>) -> bool {
    forall|j: int| 1 <= j < d.len() ==> #[trigger] d[j - 1] < d[j]
}

/// Whether position `k` holds the first date that is not later than the one before it.
pub open spec fn is_first_unordered(d: Seq<i64>, k: int) -> bool {
    &&& 1 <= k < d.len()
    &&& d[k] <= d[k - 1]
    &&& forall|j: int| 1 <= j < k ==> #[trigger] d[j - 1] < d[j]
}

/// Only one position can hold the first date out of order.
proof fn lemma_first_unordered_unique(d: Seq<i64>, j: int, k: int)
    requires
        is_first_unordered(d, j),
        is_first_unordered(d, k),
    ensures
        j == k,
{
    if j < k {
        assert(d[j - 1] < d[j]);
    } else if k < j {
        assert(d[k - 1] < d[k]);
    }
}

/// Whether `t` is a fresh tracker for these settings and schedule: counting work left, with
/// one checkpoint per date, projected as of some instant.
pub open spec fn set_up_from(
    t: ProgressTracker,
    max_per_lab: u8,
    target_grade: i8,
    achievements: Seq<Achievement>,
    texts: Seq<Seq<char>>,
) -> bool {
    &&& t.achievements@ == achievements
    &&& t.mode == ProgressTrackerMode::Left
    &&& t.max_per_lab == max_per_lab
    &&& t.target_grade == target_grade
    &&& t.labs@.len() == texts.len()
    &&& forall|i: int|
        0 <= i < texts.len() ==> date_text_timestamp(texts[i]) == Some(#[trigger] t.labs@[i].date)
    &&& strictly_increasing(t.dates())
    &&& exists|now: i64| t.projected_at(now)
}

/// Where every text before `j` is a date and the one at `j` is not, `j` is the first that
/// is not.
proof fn lemma_first_unparseable_extend(texts: Seq<Seq<char>>, j: int)
    requires
        0 <= j < texts.len(),
        first_unparseable(texts.take(j)) is None,
        date_text_timestamp(texts[j]) is None,
    ensures
        first_unparseable(texts) == Some(j),
    decreases texts.len() - j,
{
    assert(texts.take(j + 1).drop_last() =~= texts.take(j));
    assert(texts.take(j + 1).last() == texts[j]);
    if j + 1 < texts.len() {
        lemma_first_unparseable_prefix(texts, j + 1);
    } else {
        assert(texts.take(j + 1) =~= texts);
    }
}

/// A first unreadable text found in a prefix is the first one of the whole sequence.
proof fn lemma_first_unparseable_prefix(texts: Seq<Seq<char>>, k: int)
    requires
        0 <= k <= texts.len(),
        first_unparseable(texts.take(k)) is Some,
    ensures
        first_unparseable(texts) == first_unparseable(texts.take(k)),
    decreases texts.len() - k,
{
    if k < texts.len() {
        assert(texts.take(k + 1).drop_last() =~= texts.take(k));
        lemma_first_unparseable_prefix(texts, k + 1);
    } else {
        assert(texts.take(k) =~= texts);
    }
}

impl ProgressTracker {
    /// The checkpoint dates.
    pub open spec fn dates(&self) -> Seq<i64> {
        self.labs@.map_values(|l: Lab| l.date)
    }

    /// The number of eligible achievements: what each counter starts from, or counts up to.
    pub open spec fn total(&self) -> nat {
        eligible_count(self.achievements@, self.target_grade)
    }

    /// The projection of this tracker's catalog and settings as of the instant `now`.
    pub open spec fn plan(&self, now: i64) -> Plan {
        Plan {
            achievements: self.achievements@,
            grade: self.target_grade,
            cap: self.max_per_lab as nat,
            now,
            dates: self.dates(),
        }
    }

    /// Whether every checkpoint, and the summary counters, hold the projection as of `now`:
    /// checkpoint `i` shows the tally after the first `i + 1` checkpoints, and the summary
    /// shows the tally after all of them.
    pub open spec fn projected_at(&self, now: i64) -> bool {
        let p = self.plan(now);
        let n = self.labs@.len();
        &&& forall|i: int|
            0 <= i < n ==> lab_shows(
                #[trigger] self.labs@[i],
                self.mode,
                self.total(),
                p.tally((i + 1) as nat),
            )
        &&& self.optimal == shown(self.mode, self.total(), p.tally(n).optimal)
        &&& self.minimum == shown(self.mode, self.total(), p.tally(n).minimum)
        &&& self.target == shown(self.mode, self.total(), p.tally(n).target)
        &&& self.current_minimum == shown(self.mode, self.total(), p.tally(n).current_minimum)
    }

    /// Recomputes every checkpoint's counters, and the summary, from scratch as of the
    /// instant `now` (seconds since the Unix epoch). Only the counters change.
    pub fn update_at(&mut self, now: i64)
        ensures
            final(self).achievements@ == old(self).achievements@,
            final(self).mode == old(self).mode,
            final(self).max_per_lab == old(self).max_per_lab,
            final(self).target_grade == old(self).target_grade,
            final(self).dates() == old(self).dates(),
            final(self).projected_at(now),
    {
        let ghost p = self.plan(now);
        let total = count_eligible(&self.achievements, self.target_grade);
        let cap = self.max_per_lab as usize;
        let n = self.labs.len();
        let mode = self.mode;
        let mut optimal: usize = 0;
        let mut minimum: usize = 0;
        let mut target: usize = 0;
        let mut current_minimum: usize = 0;
        let mut labs: Vec<Lab> = Vec::new();
        let mut i: usize = 0;
        proof {
            lemma_tally_grows_within(p, 0);
        }
        while i < n
            invariant
                p == self.plan(now),
                mode == self.mode,
                total == p.total(),
                cap == p.cap,
                n == self.labs@.len(),
                n == p.dates.len(),
                i <= n,
                labs@.len() == i,
                optimal == p.tally(i as nat).optimal,
                minimum == p.tally(i as nat).minimum,
                target == p.tally(i as nat).target,
                current_minimum == p.tally(i as nat).current_minimum,
                tally_within(p.tally(i as nat), p.total()),
                forall|k: int|
                    0 <= k < i ==> (#[trigger] labs@[k]).date == self.labs@[k].date && lab_shows(
                        labs@[k],
                        mode,
                        p.total(),
                        p.tally((k + 1) as nat),
                    ),
            decreases n - i,
        {
            let date = self.labs[i].date;
            proof {
                assert(p.dates[i as int] == date);
            }
            let (due, done) = count_due(&self.achievements, self.target_grade, date);
            let left = n - i;
            let next_optimal = step_toward(optimal, due, cap);
            let next_minimum = step_paced(minimum, due, total, cap, left);
            let (next_target, next_current_minimum) = if now > date {
                (step_actual(target, due, done), step_actual(current_minimum, due, done))
            } else {
                (step_toward(target, due, cap), step_paced(current_minimum, due, total, cap, left))
            };
            proof {
                lemma_tally_grows_within(p, (i + 1) as nat);
            }
            optimal = next_optimal;
            minimum = next_minimum;
            target = next_target;
            current_minimum = next_current_minimum;
            let lab = Lab {
                date,
                optimal: show(mode, total, optimal),
                minimum: show(mode, total, minimum),
                target: show(mode, total, target),
                current_minimum: show(mode, total, current_minimum),
            };
            labs.push(lab);
            i = i + 1;
        }
        self.labs = labs;
        self.optimal = show(mode, total, optimal);
        self.minimum = show(mode, total, minimum);
        self.target = show(mode, total, target);
        self.current_minimum = show(mode, total, current_minimum);
        proof {
            assert(self.dates() =~= p.dates);
        }
    }

    /// The number of eligible achievements for the current target grade.
    pub fn eligible_total(&self) -> (r: usize)
        ensures
            r == self.total(),
    {
        count_eligible(&self.achievements, self.target_grade)
    }

    /// Recomputes the projection as of the present instant. Where the clock cannot be read,
    /// every checkpoint counts as still ahead.
    pub fn update(&mut self)
        ensures
            final(self).achievements@ == old(self).achievements@,
            final(self).mode == old(self).mode,
            final(self).max_per_lab == old(self).max_per_lab,
            final(self).target_grade == old(self).target_grade,
            final(self).dates() == old(self).dates(),
            exists|now: i64| final(self).projected_at(now),
    {
        let now = match now_timestamp() {
            Some(t) => t,
            None => i64::MIN,
        };
        self.update_at(now);
        assert(self.projected_at(now));
    }

    /// A tracker for the course's checkpoints: see `with_schedule`.
    pub fn new(max_per_lab: u8, target_grade: i8, achievements: &Vec<Achievement>) -> (r: Result<
        Self,
        TrackerError,
    >)
        ensures
            match setup_error(max_per_lab, default_schedule_text()) {
                Some(e) => r == Err::<Self, TrackerError>(e),
                None => r is Ok && set_up_from(
                    r->Ok_0,
                    max_per_lab,
                    target_grade,
                    achievements@,
                    default_schedule_text(),
                ),
            },
    {
        let schedule = default_schedule();
        Self::with_schedule(max_per_lab, target_grade, achievements, &schedule)
    }

    /// A tracker that counts work left for this catalog and target grade, with a checkpoint
    /// for each date of `schedule` (texts like `Sep 2, 2024`), projected as of the present.
    /// Fails on a zero maximum, an empty schedule, or a date that cannot be read.
    pub fn with_schedule(
        max_per_lab: u8,
        target_grade: i8,
        achievements: &Vec<Achievement>,
        schedule: &Vec<String>,
    ) -> (r: Result<Self, TrackerError>)
        ensures
            match setup_error(max_per_lab, texts_of(schedule@)) {
                Some(e) => r == Err::<Self, TrackerError>(e),
                None => r is Ok && set_up_from(
                    r->Ok_0,
                    max_per_lab,
                    target_grade,
                    achievements@,
                    texts_of(schedule@),
                ),
            },
    {
        let ghost texts = texts_of(schedule@);
        if max_per_lab == 0 {
            return Err(TrackerError::ZeroMaxPerLab);
        }
        if schedule.len() == 0 {
            return Err(TrackerError::EmptySchedule);
        }
        let mut labs: Vec<Lab> = Vec::new();
        let mut j: usize = 0;
        while j < schedule.len()
            invariant
                texts == texts_of(schedule@),
                max_per_lab != 0,
                schedule@.len() > 0,
                j <= schedule@.len(),
                labs@.len() == j,
                first_unparseable(texts.take(j as int)) is None,
                forall|i: int|
                    0 <= i < j ==> date_text_timestamp(texts[i]) == Some(#[trigger] labs@[i].date),
            decreases schedule@.len() - j,
        {
            proof {
                assert(texts.take(j as int + 1).drop_last() =~= texts.take(j as int));
                assert(texts.take(j as int + 1).last() == texts[j as int]);
            }
            match parse_date_text(schedule[j].as_str()) {
                Some(d) => {
                    labs.push(Lab { date: d, optimal: 0, minimum: 0, target: 0, current_minimum: 0 });
                },
                None => {
                    proof {
                        lemma_first_unparseable_extend(texts, j as int);
                    }
                    return Err(TrackerError::UnparseableDate { index: j });
                },
            }
            j = j + 1;
        }
        proof {
            assert(texts.take(texts.len() as int) =~= texts);
            assert forall|i: int| 0 <= i < texts.len() implies #[trigger] parsed_dates(texts)[i]
                == labs@[i].date by {}
        }
        let mut k: usize = 1;
        while k < labs.len()
            invariant
                texts == texts_of(schedule@),
                max_per_lab != 0,
                texts.len() > 0,
                first_unparseable(texts) is None,
                1 <= k <= labs@.len(),
                labs@.len() == texts.len(),
                forall|i: int| 0 <= i < texts.len() ==> #[trigger] parsed_dates(texts)[i] == labs@[i].date,
                forall|i: int| 1 <= i < k ==> #[trigger] parsed_dates(texts)[i - 1] < parsed_dates(texts)[i],
            decreases labs@.len() - k,
        {
            if labs[k].date <= labs[k - 1].date {
                proof {
                    let d = parsed_dates(texts);
                    assert(is_first_unordered(d, k as int));
                    assert(!strictly_increasing(d));
                    let c = choose|c: int| is_first_unordered(d, c);
                    lemma_first_unordered_unique(d, k as int, c);
                }
                return Err(TrackerError::UnorderedSchedule { index: k });
            }
            k = k + 1;
        }
        let copy = achievements.clone();
        proof {
            assert(copy@ =~= achievements@);
        }
        let mut tracker = ProgressTracker {
            achievements: copy,
            mode: ProgressTrackerMode::Left,
            labs,
            max_per_lab,
            target_grade,
            optimal: 0,
            minimum: 0,
            target: 0,
            current_minimum: 0,
        };
        let ghost before = tracker;
        tracker.update();
        proof {
            assert forall|i: int| 0 <= i < texts.len() implies date_text_timestamp(texts[i]) == Some(
                #[trigger] tracker.labs@[i].date,
            ) by {
                assert(tracker.dates()[i] == before.dates()[i]);
            }
            assert forall|i: int| 1 <= i < tracker.dates().len() implies #[trigger] tracker.dates()[i
                - 1] < tracker.dates()[i] by {
                assert(tracker.dates()[i] == before.dates()[i]);
                assert(tracker.dates()[i - 1] == before.dates()[i - 1]);
                assert(parsed_dates(texts)[i - 1] < parsed_dates(texts)[i]);
            }
        }
        Ok(tracker)
    }

    /// Sets the target grade; `update` recomputes the projection for it.
    pub fn set_target_grade(&mut self, grade: i8)
        ensures
            *final(self) == (ProgressTracker { target_grade: grade, ..*old(self) }),
    {
        self.target_grade = grade;
    }

    /// Sets the per-checkpoint maximum; `update` recomputes the projection for it. A zero
    /// maximum is refused and changes nothing.
    pub fn set_max_per_lab(&mut self, max_per_lab: u8) -> (r: Result<(), TrackerError>)
        ensures
            max_per_lab == 0 ==> r == Err::<(), TrackerError>(TrackerError::ZeroMaxPerLab)
                && *final(self) == *old(self),
            max_per_lab != 0 ==> r is Ok && *final(self) == (ProgressTracker {
                max_per_lab,
                ..*old(self)
            }),
    {
        if max_per_lab == 0 {
            return Err(TrackerError::ZeroMaxPerLab);
        }
        self.max_per_lab = max_per_lab;
        Ok(())
    }

    /// Switches between counting work left and work done; `update` recomputes the projection
    /// in the new mode.
    pub fn toggle_mode(&mut self)
        ensures
            *final(self) == (ProgressTracker { mode: old(self).mode.toggle_spec(), ..*old(self) }),
    {
        self.mode = self.mode.toggle();
    }
}

} // verus!
