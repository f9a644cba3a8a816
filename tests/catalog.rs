use achievements_enhanced::achievements::{
    Achievement, AchievementLanguage, AchievementPresention, PresentationType, ProgrammingLanguage,
    SerializableAchievement, Sprint, SPRINT1_DUE,
};
use achievements_enhanced::records::{achievement_from_record, parse_grade, RecordError};

fn row(fields: &[&str]) -> Vec<String> {
    fields.iter().map(|f| f.to_string()).collect()
}

fn good_row() -> Vec<String> {
    row(&[
        "A12", "https://example.org", "Linked lists", "Sep 20, 2024", "TRUE", "FALSE", "4", "Lab",
        "C&Java", "Sprint 1", "",
    ])
}

#[test]
fn language_from_string() {
    assert_eq!(
        AchievementLanguage::from_string("Terminal".to_string()),
        AchievementLanguage::Single(ProgrammingLanguage::Bash)
    );
    assert_eq!(
        AchievementLanguage::from_string("Möte".to_string()),
        AchievementLanguage::Single(ProgrammingLanguage::NoLanguage)
    );
    assert_eq!(
        AchievementLanguage::from_string("C/Java".to_string()),
        AchievementLanguage::Either { first: ProgrammingLanguage::C, second: ProgrammingLanguage::Java }
    );
    assert_eq!(
        AchievementLanguage::from_string("C&Java".to_string()),
        AchievementLanguage::Both { first: ProgrammingLanguage::C, second: ProgrammingLanguage::Java }
    );
}

#[test]
fn presentation_from_string() {
    assert_eq!(
        AchievementPresention::from_string("Lab, Studium".to_string()),
        AchievementPresention::Either { first: PresentationType::Lab, second: PresentationType::Studium }
    );
    assert_eq!(
        AchievementPresention::from_string("Report".to_string()),
        AchievementPresention::Single(PresentationType::Report)
    );
}

#[test]
fn texts_of_tags() {
    assert_eq!(ProgrammingLanguage::Bash.to_string(), "Terminal");
    assert_eq!(ProgrammingLanguage::NoLanguage.to_string(), "Essä");
    assert_eq!(
        AchievementLanguage::Either { first: ProgrammingLanguage::C, second: ProgrammingLanguage::Java }
            .to_string(),
        "C/Java"
    );
    assert_eq!(
        AchievementLanguage::Both { first: ProgrammingLanguage::C, second: ProgrammingLanguage::Java }
            .to_string(),
        "C&Java"
    );
    assert_eq!(
        AchievementPresention::Either { first: PresentationType::Lab, second: PresentationType::Studium }
            .to_string(),
        "Lab, Studium"
    );
    assert_eq!(PresentationType::Special.to_string(), "Special");
}

#[test]
fn sprints() {
    assert_eq!(Sprint::from_string(&"Projekt".to_string()), Some(Sprint::Project));
    assert_eq!(Sprint::from_string(&"IDK".to_string()), Some(Sprint::Unclear));
    assert_eq!(Sprint::from_string(&"Sprint 5".to_string()), None);
    assert_eq!(Sprint::Sprint1.to_date(), SPRINT1_DUE);
    assert!(Sprint::Sprint1.to_date() < Sprint::Sprint2.to_date());
    assert!(Sprint::Sprint4.to_date() < Sprint::Project.to_date());
    assert_eq!(Sprint::Project.to_date(), Sprint::Unclear.to_date());
}

#[test]
fn grades() {
    assert_eq!(parse_grade("5"), Some(5));
    assert_eq!(parse_grade("+4"), Some(4));
    assert_eq!(parse_grade("-3"), Some(-3));
    assert_eq!(parse_grade("007"), Some(7));
    assert_eq!(parse_grade("127"), Some(127));
    assert_eq!(parse_grade("-128"), Some(-128));
    assert_eq!(parse_grade("128"), None);
    assert_eq!(parse_grade("99999999999"), None);
    assert_eq!(parse_grade(""), None);
    assert_eq!(parse_grade("-"), None);
    assert_eq!(parse_grade("4a"), None);
    assert_eq!(parse_grade(" 4"), None);
}

#[test]
fn record_is_read() {
    let a = achievement_from_record(&good_row()).unwrap();
    assert_eq!(a.id, "A12");
    assert_eq!(a.title, "Linked lists");
    assert_eq!(a.deadline, Some(SPRINT1_DUE));
    assert!(a.done);
    assert!(!a.present_soon);
    assert_eq!(a.grade, 4);
    assert_eq!(a.presenting_type, AchievementPresention::Single(PresentationType::Lab));
    assert_eq!(
        a.programming_language,
        AchievementLanguage::Both { first: ProgrammingLanguage::C, second: ProgrammingLanguage::Java }
    );
    assert_eq!(a.sprint, Sprint::Sprint1);
    assert_eq!(a.comment, None);

    let mut r = good_row();
    r[3] = String::new();
    r[10] = "ask first".to_string();
    let a = achievement_from_record(&r).unwrap();
    assert_eq!(a.deadline, None);
    assert_eq!(a.comment, Some("ask first".to_string()));
}

#[test]
fn record_errors() {
    let short = row(&["A1", "", "t"]);
    assert_eq!(achievement_from_record(&short).err(), Some(RecordError::MissingField));
    let cases = [
        (3, "tomorrow", RecordError::UnparseableDeadline),
        (6, "four", RecordError::BadGrade),
        (7, "Poster", RecordError::UnknownPresentation),
        (8, "Rust", RecordError::UnknownLanguage),
        (9, "Sprint 9", RecordError::UnknownSprint),
    ];
    for (i, text, e) in cases {
        let mut r = good_row();
        r[i] = text.to_string();
        assert_eq!(achievement_from_record(&r).err(), Some(e));
    }
    let mut r = good_row();
    r[3] = "tomorrow".to_string();
    r[6] = "four".to_string();
    assert_eq!(achievement_from_record(&r).err(), Some(RecordError::UnparseableDeadline));
}

fn stored() -> SerializableAchievement {
    SerializableAchievement {
        id: "B3".to_string(),
        title: "Report".to_string(),
        deadline: Some("Oct 11, 2024".to_string()),
        done: false,
        present_soon: true,
        grade: 5,
        presenting_type: "Lab, Studium".to_string(),
        programming_language: "Java".to_string(),
        sprint: Sprint::Sprint2,
        comment: Some("draft".to_string()),
    }
}

#[test]
fn stored_round_trip() {
    let a = Achievement::from_serializable(stored()).unwrap();
    assert_eq!(a.deadline, Some(1728604800));
    assert_eq!(
        a.presenting_type,
        AchievementPresention::Either { first: PresentationType::Lab, second: PresentationType::Studium }
    );
    assert_eq!(a.programming_language, AchievementLanguage::Single(ProgrammingLanguage::Java));
    let s = a.to_serializable().unwrap();
    assert_eq!(s.deadline, Some("Oct 11, 2024".to_string()));
    assert_eq!(s.presenting_type, "Lab, Studium");
    assert_eq!(s.programming_language, "Java");
    assert_eq!(s.comment, Some("draft".to_string()));
    assert_eq!(s.id, "B3");
    let b = Achievement::from_serializable(s).unwrap();
    assert_eq!(b.deadline, a.deadline);
}

#[test]
fn deadline_is_written_as_a_date() {
    let mut a = Achievement::from_serializable(stored()).unwrap();
    a.deadline = Some(1725235200);
    assert_eq!(a.to_serializable().unwrap().deadline, Some("Sep 02, 2024".to_string()));
    a.deadline = Some(i64::MAX);
    assert_eq!(a.to_serializable().err(), Some(RecordError::UnrepresentableDeadline));
}

#[test]
fn stored_errors() {
    let mut s = stored();
    s.deadline = Some("someday".to_string());
    assert_eq!(Achievement::from_serializable(s).err(), Some(RecordError::UnparseableDeadline));
    let mut s = stored();
    s.presenting_type = "Poster".to_string();
    assert_eq!(Achievement::from_serializable(s).err(), Some(RecordError::UnknownPresentation));
    let mut s = stored();
    s.programming_language = "Rust".to_string();
    assert_eq!(Achievement::from_serializable(s).err(), Some(RecordError::UnknownLanguage));
}

#[test]
fn clone_keeps_every_field() {
    let a = Achievement::from_serializable(stored()).unwrap();
    let b = a.clone();
    assert_eq!(format!("{a:?}"), format!("{b:?}"));
}
