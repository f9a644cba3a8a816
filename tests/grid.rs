use achievements_enhanced::achievements::{
    Achievement, AchievementLanguage, AchievementPresention, PresentationType, ProgrammingLanguage,
    Sprint,
};
use achievements_enhanced::grid::{
    clear_done, clear_present_soon, filtered_achievements, passes_filters, Direction, Fieled,
    Filter, FilterType, Filters, Sort,
};
use achievements_enhanced::burndown::{burndown_point, count_marks};
use achievements_enhanced::summary::{catalog_progress, grade_progress, sprint_progress};
use achievements_enhanced::langs::{get_english, get_swedish, Langs};
use achievements_enhanced::ordering::{sort_achievements, text_before};

fn achievement(id: &str, grade: i8, sprint: Sprint, comment: Option<&str>) -> Achievement {
    Achievement {
        id: id.to_string(),
        title: format!("Title {id}"),
        deadline: None,
        done: true,
        present_soon: true,
        grade,
        presenting_type: AchievementPresention::Single(PresentationType::Lab),
        programming_language: AchievementLanguage::Single(ProgrammingLanguage::Java),
        sprint,
        comment: comment.map(|c| c.to_string()),
    }
}

fn catalog() -> Vec<Achievement> {
    vec![
        achievement("A1", 3, Sprint::Sprint1, None),
        achievement("A2", 4, Sprint::Sprint2, Some("hard")),
        achievement("A3", 5, Sprint::Sprint1, None),
        achievement("A4", 3, Sprint::Project, Some("hard")),
    ]
}

fn ids(rows: &[(usize, Achievement)]) -> Vec<(usize, String)> {
    rows.iter().map(|(i, a)| (*i, a.id.clone())).collect()
}

#[test]
fn direction_reverse() {
    assert_eq!(Direction::Ascending.reverse(), Direction::Descending);
    assert_eq!(Direction::Descending.reverse(), Direction::Ascending);
    assert_eq!(Direction::Default.reverse(), Direction::Ascending);
    assert_eq!(Direction::Descending.to_string(), "descending");
}

#[test]
fn sort_clicks() {
    let s = Sort::new();
    assert_eq!(s.fieled, Fieled::ID);
    assert_eq!(s.id, Direction::Default);
    let mut s = Sort::from(Fieled::Grade);
    assert_eq!(s.grade, Direction::Ascending);
    assert_eq!(s.title, Direction::Default);
    s.reverse(Fieled::Grade);
    assert_eq!(s.grade, Direction::Descending);
    assert_eq!(s.fieled, Fieled::Grade);
    s.reverse(Fieled::Title);
    assert_eq!(s.fieled, Fieled::Title);
    assert_eq!(s.title, Direction::Ascending);
    assert_eq!(s.grade, Direction::Default);
}

#[test]
fn filter_contains() {
    let mut f: Filter<i8> = Filter::new();
    assert!(f.typ == FilterType::Remove);
    assert!(!f.contains(&3));
    f.push(3);
    f.push(5);
    assert!(f.contains(&3));
    assert!(f.contains(&5));
    assert!(!f.contains(&4));
}

#[test]
fn no_filters_keep_everything() {
    let rows = filtered_achievements(&catalog(), &Filters::new());
    assert_eq!(rows.len(), 4);
    assert_eq!(ids(&rows)[3], (3, "A4".to_string()));
}

#[test]
fn removing_and_including_filters() {
    let mut f = Filters::new();
    f.grade.push(3);
    let rows = filtered_achievements(&catalog(), &f);
    assert_eq!(ids(&rows), vec![(1, "A2".to_string()), (2, "A3".to_string())]);

    let mut f = Filters::new();
    f.sprint.typ = FilterType::Include;
    f.sprint.push(Sprint::Sprint1);
    let rows = filtered_achievements(&catalog(), &f);
    assert_eq!(ids(&rows), vec![(0, "A1".to_string()), (2, "A3".to_string())]);

    let mut f = Filters::new();
    f.comment.push(Some("hard".to_string()));
    f.id.push("A1".to_string());
    let rows = filtered_achievements(&catalog(), &f);
    assert_eq!(ids(&rows), vec![(2, "A3".to_string())]);

    let mut f = Filters::new();
    f.comment.typ = FilterType::Include;
    f.comment.push(None);
    assert!(passes_filters(&f, &catalog()[0]));
    assert!(!passes_filters(&f, &catalog()[1]));
}

#[test]
fn clearing_marks() {
    let mut c = catalog();
    clear_done(&mut c);
    assert!(c.iter().all(|a| !a.done && a.present_soon));
    clear_present_soon(&mut c);
    assert!(c.iter().all(|a| !a.present_soon));
    assert_eq!(c[1].comment, Some("hard".to_string()));
}

#[test]
fn interface_texts() {
    let en = get_english();
    let sv = get_swedish();
    assert_eq!(en.title, "Title");
    assert_eq!(sv.title, "Namn");
    assert_eq!(sv.target, "Mål");
    assert_eq!(en.right_click_to_filter, "Right click to filter out\nShift Right click to only show this");
    assert_eq!(Langs::Swedish.texts().done, "Färdig");
    assert_eq!(Langs::English.to_string(), "English");
}

#[test]
fn sorting_by_a_column() {
    let mut rows = catalog();
    rows[0].title = "beta".to_string();
    rows[1].title = "alpha".to_string();
    rows[2].title = "Zeta".to_string();
    rows[3].title = "alphabet".to_string();
    let mut sorting = Sort::new();
    sort_achievements(&mut rows, &mut sorting, Fieled::Title);
    let titles: Vec<&str> = rows.iter().map(|a| a.title.as_str()).collect();
    assert_eq!(titles, vec!["Zeta", "alpha", "alphabet", "beta"]);
    assert_eq!(sorting.fieled, Fieled::Title);
    assert_eq!(sorting.title, Direction::Ascending);

    sort_achievements(&mut rows, &mut sorting, Fieled::Title);
    let titles: Vec<&str> = rows.iter().map(|a| a.title.as_str()).collect();
    assert_eq!(titles, vec!["beta", "alphabet", "alpha", "Zeta"]);
    assert_eq!(sorting.title, Direction::Descending);

    sort_achievements(&mut rows, &mut sorting, Fieled::Grade);
    let grades: Vec<i8> = rows.iter().map(|a| a.grade).collect();
    assert_eq!(grades, vec![3, 3, 4, 5]);
    let mut std_sorted = rows.clone();
    std_sorted.sort_by(|a, b| a.grade.cmp(&b.grade));
    let ids_std: Vec<&str> = std_sorted.iter().map(|a| a.id.as_str()).collect();
    let ids_ours: Vec<&str> = rows.iter().map(|a| a.id.as_str()).collect();
    assert_eq!(ids_ours, ids_std);

    sort_achievements(&mut rows, &mut sorting, Fieled::Sprint);
    let sprints: Vec<Sprint> = rows.iter().map(|a| a.sprint).collect();
    assert_eq!(sprints, vec![Sprint::Sprint1, Sprint::Sprint1, Sprint::Sprint2, Sprint::Project]);

    sort_achievements(&mut rows, &mut sorting, Fieled::Comment);
    assert_eq!(rows[0].comment, None);
    assert_eq!(rows[3].comment, Some("hard".to_string()));

    assert!(text_before("Färdig", "Förr"));
    assert!(text_before("", "a"));
    assert!(!text_before("a", "a"));
    assert!(!text_before("b", "a"));
}

#[test]
fn right_click_filters() {
    let mut f: Filter<i8> = Filter::new();
    f.select(3, false);
    f.select(4, false);
    assert!(f.typ == FilterType::Remove);
    assert_eq!(f.value, vec![3, 4]);
    f.select(5, true);
    assert!(f.typ == FilterType::Include);
    assert_eq!(f.value, vec![5]);
}

#[test]
fn progress_summaries() {
    let mut c = catalog();
    c[1].done = false;
    c[3].done = false;
    assert_eq!(grade_progress(&c, 3), (1, 2));
    assert_eq!(grade_progress(&c, 4), (0, 1));
    assert_eq!(grade_progress(&c, 5), (1, 1));
    assert_eq!(sprint_progress(&c, Sprint::Sprint1), (2, 2));
    assert_eq!(sprint_progress(&c, Sprint::Unclear), (0, 0));
    assert_eq!(catalog_progress(&c), (2, 4));
}

#[test]
fn burndown_counts() {
    let rows: Vec<Vec<String>> = vec![
        vec!["A1", "", "t", "", "true", "false"],
        vec!["A2", "", "t", "", "true", "true"],
        vec!["A3", "", "t", "", "TRUE", "true"],
        vec!["A4"],
    ]
    .into_iter()
    .map(|r| r.into_iter().map(|f| f.to_string()).collect())
    .collect();
    assert_eq!(count_marks(&rows), (2, 2));
    assert_eq!(burndown_point(2, 2), (63, 61));
    assert_eq!(burndown_point(70, 1), (0, 0));
    assert_eq!(burndown_point(60, 9), (5, 0));
}
