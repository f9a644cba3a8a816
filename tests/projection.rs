use achievements_enhanced::achievements::{
    Achievement, AchievementLanguage, AchievementPresention, PresentationType, ProgrammingLanguage,
    Sprint,
};
use achievements_enhanced::progress_tracker::{
    default_schedule, Lab, ProgressTracker, ProgressTrackerMode, TrackerError,
};

const SEP_23: i64 = 1727049600;
const OCT_14: i64 = 1728864000;
const NOV_04: i64 = 1730678400;
const LONG_AGO: i64 = 0;
const FAR_AHEAD: i64 = 4000000000;

fn lab_achievement(id: &str, grade: i8, sprint: Sprint, done: bool) -> Achievement {
    Achievement {
        id: id.to_string(),
        title: format!("Achievement {id}"),
        deadline: None,
        done,
        present_soon: false,
        grade,
        presenting_type: AchievementPresention::Single(PresentationType::Lab),
        programming_language: AchievementLanguage::Single(ProgrammingLanguage::C),
        sprint,
        comment: None,
    }
}

fn schedule(dates: &[&str]) -> Vec<String> {
    dates.iter().map(|d| d.to_string()).collect()
}

fn tracker(max: u8, grade: i8, achievements: &Vec<Achievement>, dates: &[&str]) -> ProgressTracker {
    ProgressTracker::with_schedule(max, grade, achievements, &schedule(dates)).unwrap()
}

fn counters(l: &Lab) -> [usize; 4] {
    [l.optimal, l.minimum, l.target, l.current_minimum]
}

fn three_sprints() -> Vec<Achievement> {
    vec![
        lab_achievement("A1", 3, Sprint::Sprint1, false),
        lab_achievement("A2", 3, Sprint::Sprint1, false),
        lab_achievement("A3", 4, Sprint::Sprint2, false),
        lab_achievement("A4", 5, Sprint::Sprint2, false),
        lab_achievement("A5", 5, Sprint::Sprint3, false),
    ]
}

const THREE_LABS: [&str; 3] = ["Sep 23, 2024", "Oct 14, 2024", "Nov 4, 2024"];

#[test]
fn lab_new_reads_the_date() {
    let lab = Lab::new("Sep 2, 2024".to_string()).unwrap();
    assert_eq!(lab.date, 1725235200);
    assert_eq!(counters(&lab), [0, 0, 0, 0]);
    assert_eq!(
        Lab::new("Sept the second".to_string()),
        Err(TrackerError::UnparseableDate { index: 0 })
    );
}

#[test]
fn schedule_dates_are_read_in_order() {
    let t = tracker(2, 5, &three_sprints(), &THREE_LABS);
    let dates: Vec<i64> = t.labs.iter().map(|l| l.date).collect();
    assert_eq!(dates, vec![SEP_23, OCT_14, NOV_04]);
    assert_eq!(t.mode, ProgressTrackerMode::Left);
}

#[test]
fn default_schedule_has_every_lab() {
    let s = default_schedule();
    assert_eq!(s.len(), 32);
    assert_eq!(s[0], "Sep 2, 2024");
    assert_eq!(s[31], "Dec 16, 2024");
    let t = ProgressTracker::new(4, 5, &three_sprints()).unwrap();
    assert_eq!(t.labs.len(), 32);
    assert_eq!(t.labs[0].date, 1725235200);
    assert!(t.labs.windows(2).all(|w| w[0].date < w[1].date));
}

#[test]
fn setup_errors() {
    let a = three_sprints();
    assert_eq!(
        ProgressTracker::with_schedule(0, 5, &a, &schedule(&THREE_LABS)).err(),
        Some(TrackerError::ZeroMaxPerLab)
    );
    assert_eq!(
        ProgressTracker::with_schedule(2, 5, &a, &Vec::new()).err(),
        Some(TrackerError::EmptySchedule)
    );
    assert_eq!(
        ProgressTracker::with_schedule(2, 5, &a, &schedule(&["Sep 2, 2024", "soon", "never"])).err(),
        Some(TrackerError::UnparseableDate { index: 1 })
    );
    assert_eq!(
        ProgressTracker::with_schedule(2, 5, &a, &schedule(&["Sep 2, 2024", "Sep 9, 2024", "Sep 9, 2024", "Sep 5, 2024"])).err(),
        Some(TrackerError::UnorderedSchedule { index: 2 })
    );
    assert_eq!(
        ProgressTracker::with_schedule(2, 5, &a, &schedule(&["Oct 1, 2024", "Sep 9, 2024", "x"])).err(),
        Some(TrackerError::UnparseableDate { index: 2 })
    );
    assert_eq!(ProgressTracker::new(0, 5, &a).err(), Some(TrackerError::ZeroMaxPerLab));
}

#[test]
fn single_future_checkpoint_optimal() {
    let a: Vec<Achievement> = (0..5)
        .map(|i| lab_achievement(&format!("A{i}"), 3, Sprint::Sprint1, false))
        .collect();
    let mut t = tracker(2, 5, &a, &["Oct 1, 2024"]);
    t.update_at(LONG_AGO);
    assert_eq!(t.eligible_total(), 5);
    assert_eq!(t.labs[0].optimal, 5 - 2);
    assert_eq!(t.optimal, 3);
}

#[test]
fn three_checkpoint_pacing() {
    let mut t = tracker(2, 5, &three_sprints(), &THREE_LABS);
    t.update_at(LONG_AGO);
    assert_eq!(counters(&t.labs[0]), [3, 3, 3, 3]);
    assert_eq!(counters(&t.labs[1]), [1, 1, 1, 1]);
    assert_eq!(counters(&t.labs[2]), [0, 0, 0, 0]);
    assert_eq!([t.optimal, t.minimum, t.target, t.current_minimum], [0, 0, 0, 0]);
}

#[test]
fn ceiling_division_minimum_pacing() {
    let a: Vec<Achievement> = (0..7)
        .map(|i| lab_achievement(&format!("A{i}"), 3, Sprint::Sprint1, false))
        .collect();
    let mut t = tracker(10, 5, &a, &THREE_LABS);
    t.update_at(LONG_AGO);
    let minimum: Vec<usize> = t.labs.iter().map(|l| l.minimum).collect();
    assert_eq!(minimum, vec![4, 2, 0]);
    let optimal: Vec<usize> = t.labs.iter().map(|l| l.optimal).collect();
    assert_eq!(optimal, vec![0, 0, 0]);
}

#[test]
fn all_done_and_passed_single_checkpoint() {
    let a: Vec<Achievement> = (0..3)
        .map(|i| lab_achievement(&format!("A{i}"), 3, Sprint::Sprint1, true))
        .collect();
    let mut t = tracker(4, 5, &a, &["Oct 1, 2024"]);
    t.toggle_mode();
    t.update_at(FAR_AHEAD);
    assert_eq!(counters(&t.labs[0]), [3, 3, 3, 3]);
    t.toggle_mode();
    t.update_at(FAR_AHEAD);
    assert_eq!(counters(&t.labs[0]), [0, 0, 0, 0]);
}

#[test]
fn all_done_and_passed_target_counters() {
    let a: Vec<Achievement> = (0..3)
        .map(|i| lab_achievement(&format!("A{i}"), 3, Sprint::Sprint1, true))
        .collect();
    let mut t = tracker(4, 5, &a, &THREE_LABS);
    t.toggle_mode();
    t.update_at(FAR_AHEAD);
    for lab in &t.labs {
        assert_eq!([lab.optimal, lab.target, lab.current_minimum], [3, 3, 3]);
    }
    let minimum: Vec<usize> = t.labs.iter().map(|l| l.minimum).collect();
    assert_eq!(minimum, vec![1, 2, 3]);
}

#[test]
fn empty_catalog_is_all_zero() {
    let mut t = tracker(4, 5, &Vec::new(), &THREE_LABS);
    for mode in [ProgressTrackerMode::Left, ProgressTrackerMode::Done] {
        t.mode = mode;
        for now in [LONG_AGO, FAR_AHEAD] {
            t.update_at(now);
            assert_eq!(t.eligible_total(), 0);
            for lab in &t.labs {
                assert_eq!(counters(lab), [0, 0, 0, 0]);
            }
            assert_eq!([t.optimal, t.minimum, t.target, t.current_minimum], [0, 0, 0, 0]);
        }
    }
}

#[test]
fn counters_move_one_way_and_stay_bounded() {
    let mut a = three_sprints();
    a[0].done = true;
    a[2].done = true;
    let mut t = tracker(1, 5, &a, &THREE_LABS);
    for mode in [ProgressTrackerMode::Left, ProgressTrackerMode::Done] {
        t.mode = mode;
        for now in [LONG_AGO, OCT_14 + 1, FAR_AHEAD] {
            t.update_at(now);
            for w in t.labs.windows(2) {
                for k in 0..4 {
                    match mode {
                        ProgressTrackerMode::Left => assert!(counters(&w[1])[k] <= counters(&w[0])[k]),
                        ProgressTrackerMode::Done => assert!(counters(&w[0])[k] <= counters(&w[1])[k]),
                    }
                }
            }
            for lab in &t.labs {
                assert!(counters(lab).iter().all(|c| *c <= 5));
            }
        }
    }
}

#[test]
fn raising_the_grade_grows_the_total() {
    let a = three_sprints();
    let totals: Vec<usize> = [3, 4, 5]
        .iter()
        .map(|g| tracker(2, *g, &a, &THREE_LABS).eligible_total())
        .collect();
    assert_eq!(totals, vec![2, 3, 5]);
    let mut t = tracker(2, 3, &a, &THREE_LABS);
    t.set_target_grade(5);
    assert_eq!(t.eligible_total(), 5);
}

#[test]
fn left_and_done_are_dual() {
    let mut a = three_sprints();
    a[1].done = true;
    a[3].done = true;
    for now in [LONG_AGO, OCT_14 + 1, FAR_AHEAD] {
        let mut left = tracker(2, 5, &a, &THREE_LABS);
        left.update_at(now);
        let mut done = tracker(2, 5, &a, &THREE_LABS);
        done.toggle_mode();
        done.update_at(now);
        assert_eq!(done.mode, ProgressTrackerMode::Done);
        for (l, d) in left.labs.iter().zip(done.labs.iter()) {
            for k in 0..4 {
                assert_eq!(counters(l)[k], 5 - counters(d)[k]);
            }
        }
        assert_eq!(left.optimal, 5 - done.optimal);
        assert_eq!(left.current_minimum, 5 - done.current_minimum);
    }
}

#[test]
fn past_steps_follow_actual_work() {
    let mut a: Vec<Achievement> = (0..6)
        .map(|i| lab_achievement(&format!("A{i}"), 3, Sprint::Sprint1, true))
        .collect();
    a.push(lab_achievement("B", 3, Sprint::Sprint1, false));
    let mut t = tracker(10, 5, &a, &THREE_LABS);
    t.toggle_mode();
    t.update_at(FAR_AHEAD);
    let target: Vec<usize> = t.labs.iter().map(|l| l.target).collect();
    assert_eq!(target, vec![4, 6, 6]);
    let optimal: Vec<usize> = t.labs.iter().map(|l| l.optimal).collect();
    assert_eq!(optimal, vec![7, 7, 7]);
    // Only the first checkpoint has passed: the later ones pace like the optimal and minimum.
    t.update_at(SEP_23 + 1);
    let target: Vec<usize> = t.labs.iter().map(|l| l.target).collect();
    assert_eq!(target, vec![4, 7, 7]);
    let current_minimum: Vec<usize> = t.labs.iter().map(|l| l.current_minimum).collect();
    assert_eq!(current_minimum, vec![4, 6, 7]);
}

#[test]
fn future_steps_are_capped_by_the_maximum() {
    let a: Vec<Achievement> = (0..7)
        .map(|i| lab_achievement(&format!("A{i}"), 3, Sprint::Sprint1, false))
        .collect();
    let mut t = tracker(3, 5, &a, &THREE_LABS);
    t.toggle_mode();
    t.update_at(LONG_AGO);
    let optimal: Vec<usize> = t.labs.iter().map(|l| l.optimal).collect();
    assert_eq!(optimal, vec![3, 6, 7]);
    let minimum: Vec<usize> = t.labs.iter().map(|l| l.minimum).collect();
    assert_eq!(minimum, vec![3, 5, 7]);
}

#[test]
fn ineligible_achievements_are_left_out() {
    let mut a = three_sprints();
    a[0].presenting_type = AchievementPresention::Single(PresentationType::Report);
    a[1].presenting_type = AchievementPresention::Either {
        first: PresentationType::Lab,
        second: PresentationType::Studium,
    };
    let t = tracker(2, 5, &a, &THREE_LABS);
    assert_eq!(t.eligible_total(), 3);
}

#[test]
fn setters_and_toggle() {
    let mut t = tracker(2, 5, &three_sprints(), &THREE_LABS);
    assert_eq!(t.set_max_per_lab(0), Err(TrackerError::ZeroMaxPerLab));
    assert_eq!(t.max_per_lab, 2);
    assert_eq!(t.set_max_per_lab(3), Ok(()));
    assert_eq!(t.max_per_lab, 3);
    assert_eq!(ProgressTrackerMode::Left.toggle(), ProgressTrackerMode::Done);
    assert_eq!(ProgressTrackerMode::Done.toggle(), ProgressTrackerMode::Left);
    t.toggle_mode();
    assert_eq!(t.mode, ProgressTrackerMode::Done);
}

#[test]
fn update_uses_the_present() {
    let a: Vec<Achievement> = (0..3)
        .map(|i| lab_achievement(&format!("A{i}"), 3, Sprint::Sprint1, false))
        .collect();
    let mut t = tracker(4, 5, &a, &["Oct 1, 2024"]);
    t.update();
    // The checkpoint has passed and nothing is done: the target counts nothing as done.
    assert_eq!(t.labs[0].target, 3);
    assert_eq!(t.labs[0].optimal, 0);
}

#[test]
fn higher_grade_leaves_at_least_as_much_optimal_work() {
    let a = three_sprints();
    let mut low = tracker(1, 3, &a, &THREE_LABS);
    let mut high = tracker(1, 5, &a, &THREE_LABS);
    low.update_at(LONG_AGO);
    high.update_at(LONG_AGO);
    let low_left: Vec<usize> = low.labs.iter().map(|l| l.optimal).collect();
    let high_left: Vec<usize> = high.labs.iter().map(|l| l.optimal).collect();
    assert_eq!(low_left, vec![1, 0, 0]);
    assert_eq!(high_left, vec![4, 3, 2]);
}
