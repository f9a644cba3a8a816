//! The records of the achievement catalog and the small vocabularies they are tagged with.
use vstd::prelude::*;

verus! {

/// A language that an achievement is written in.
#[derive(Clone, Copy, Debug, PartialEq, Eq, Structural, PartialOrd, Ord, Hash)]
pub enum ProgrammingLanguage {
    C,
    Java,
    Git,
    Bash,
    NoLanguage,
}

/// The name under which a language is shown.
pub open spec fn programming_language_text(l: ProgrammingLanguage) -> Seq<char> {
    match l {
        ProgrammingLanguage::C => "C"@,
        ProgrammingLanguage::Java => "Java"@,
        ProgrammingLanguage::Git => "Git"@,
        ProgrammingLanguage::Bash => "Terminal"@,
        ProgrammingLanguage::NoLanguage => "Essä"@,
    }
}

impl ProgrammingLanguage {
    /// The name under which this language is shown.
    pub fn to_string(&self) -> (r: String)
        ensures
            r@ == programming_language_text(*self),
    {
        match self {
            ProgrammingLanguage::C => String::from_str("C"),
            ProgrammingLanguage::Java => String::from_str("Java"),
            ProgrammingLanguage::Git => String::from_str("Git"),
            ProgrammingLanguage::Bash => String::from_str("Terminal"),
            ProgrammingLanguage::NoLanguage => String::from_str("Essä"),
        }
    }
}

/// The languages that an achievement asks for: one, both of two, or either of two.
#[derive(Clone, Copy, Debug, PartialEq, Eq, Structural, PartialOrd, Ord, Hash)]
pub enum AchievementLanguage {
    Single(ProgrammingLanguage),
    Both { first: ProgrammingLanguage, second: ProgrammingLanguage },
    Either { first: ProgrammingLanguage, second: ProgrammingLanguage },
}

/// The text under which a language requirement is shown: `C`, `C&Java`, `C/Java`.
pub open spec fn achievement_language_text(l: AchievementLanguage) -> Seq<char> {
    match l {
        AchievementLanguage::Single(p) => programming_language_text(p),
        AchievementLanguage::Both { first, second } => programming_language_text(first) + "&"@
            + programming_language_text(second),
        AchievementLanguage::Either { first, second } => programming_language_text(first) + "/"@
            + programming_language_text(second),
    }
}

/// The language requirement that a catalog text names, or `None` for a text it does not know.
pub open spec fn language_of_text(s: Seq<char>) -> Option<AchievementLanguage> {
    if s == "C"@ {
        Some(AchievementLanguage::Single(ProgrammingLanguage::C))
    } else if s == "Java"@ {
        Some(AchievementLanguage::Single(ProgrammingLanguage::Java))
    } else if s == "Terminal"@ {
        Some(AchievementLanguage::Single(ProgrammingLanguage::Bash))
    } else if s == "Git"@ {
        Some(AchievementLanguage::Single(ProgrammingLanguage::Git))
    } else if s == "Essä"@ || s == "Möte"@ || s == "NoLanguage"@ {
        Some(AchievementLanguage::Single(ProgrammingLanguage::NoLanguage))
    } else if s == "C&Java"@ {
        Some(
            AchievementLanguage::Both {
                first: ProgrammingLanguage::C,
                second: ProgrammingLanguage::Java,
            },
        )
    } else if s == "C/Java"@ {
        Some(
            AchievementLanguage::Either {
                first: ProgrammingLanguage::C,
                second: ProgrammingLanguage::Java,
            },
        )
    } else {
        None
    }
}

/// Whether `s` equals the literal `lit`.
fn text_is(s: &String, lit: &str) -> (r: bool)
    ensures
        r == (s@ == lit@),
{
    let l = String::from_str(lit);
    *s == l
}

impl AchievementLanguage {
    /// Reads a language requirement from its catalog text.
    pub fn from_string(string: String) -> (r: AchievementLanguage)
        requires
            language_of_text(string@) is Some,
        ensures
            language_of_text(string@) == Some(r),
    {
        if text_is(&string, "C") {
            AchievementLanguage::Single(ProgrammingLanguage::C)
        } else if text_is(&string, "Java") {
            AchievementLanguage::Single(ProgrammingLanguage::Java)
        } else if text_is(&string, "Terminal") {
            AchievementLanguage::Single(ProgrammingLanguage::Bash)
        } else if text_is(&string, "Git") {
            AchievementLanguage::Single(ProgrammingLanguage::Git)
        } else if text_is(&string, "Essä") || text_is(&string, "Möte") || text_is(
            &string,
            "NoLanguage",
        ) {
            AchievementLanguage::Single(ProgrammingLanguage::NoLanguage)
        } else if text_is(&string, "C&Java") {
            AchievementLanguage::Both { first: ProgrammingLanguage::C, second: ProgrammingLanguage::Java }
        } else {
            AchievementLanguage::Either { first: ProgrammingLanguage::C, second: ProgrammingLanguage::Java }
        }
    }

    /// The text under which this requirement is shown.
    pub fn to_string(&self) -> (r: String)
        ensures
            r@ == achievement_language_text(*self),
    {
        match self {
            AchievementLanguage::Single(p) => p.to_string(),
            AchievementLanguage::Both { first, second } => {
                let s = first.to_string().concat("&");
                let t = second.to_string();
                s.concat(t.as_str())
            },
            AchievementLanguage::Either { first, second } => {
                let s = first.to_string().concat("/");
                let t = second.to_string();
                s.concat(t.as_str())
            },
        }
    }
}

/// The period of the course that an achievement is scheduled in.
#[derive(Clone, Copy, Debug, PartialEq, Eq, Structural, PartialOrd, Ord, Hash)]
pub enum Sprint {
    Sprint1,
    Sprint2,
    Sprint3,
    Sprint4,
    Project,
    Unclear,
}

/// Midnight (UTC) of Sep 20, 2024, in seconds since the Unix epoch.
pub const SPRINT1_DUE: i64 = 1726790400;

/// Midnight (UTC) of Oct 11, 2024.
pub const SPRINT2_DUE: i64 = 1728604800;

/// Midnight (UTC) of Nov 1, 2024.
pub const SPRINT3_DUE: i64 = 1730419200;

/// Midnight (UTC) of Nov 22, 2024.
pub const SPRINT4_DUE: i64 = 1732233600;

/// Midnight (UTC) of Dec 16, 2024: the end of the course.
pub const COURSE_END: i64 = 1734307200;

/// The instant by which the achievements of a sprint are due.
pub open spec fn sprint_due(s: Sprint) -> i64 {
    match s {
        Sprint::Sprint1 => SPRINT1_DUE,
        Sprint::Sprint2 => SPRINT2_DUE,
        Sprint::Sprint3 => SPRINT3_DUE,
        Sprint::Sprint4 => SPRINT4_DUE,
        Sprint::Project => COURSE_END,
        Sprint::Unclear => COURSE_END,
    }
}

/// The sprint that a catalog text names, or `None` for a text it does not know.
pub open spec fn sprint_of_text(s: Seq<char>) -> Option<Sprint> {
    if s == "Sprint 1"@ {
        Some(Sprint::Sprint1)
    } else if s == "Sprint 2"@ {
        Some(Sprint::Sprint2)
    } else if s == "Sprint 3"@ {
        Some(Sprint::Sprint3)
    } else if s == "Sprint 4"@ {
        Some(Sprint::Sprint4)
    } else if s == "Project"@ || s == "Projekt"@ {
        Some(Sprint::Project)
    } else if s == "IDK"@ {
        Some(Sprint::Unclear)
    } else {
        None
    }
}

impl Sprint {
    /// The instant (seconds since the Unix epoch) by which this sprint's achievements are due.
    pub fn to_date(&self) -> (r: i64)
        ensures
            r == sprint_due(*self),
    {
        match self {
            Sprint::Sprint1 => SPRINT1_DUE,
            Sprint::Sprint2 => SPRINT2_DUE,
            Sprint::Sprint3 => SPRINT3_DUE,
            Sprint::Sprint4 => SPRINT4_DUE,
            Sprint::Project => COURSE_END,
            Sprint::Unclear => COURSE_END,
        }
    }

    /// Reads a sprint from its catalog text (`Sprint 1` .. `Sprint 4`, `Project`, `Projekt`,
    /// `IDK`).
    pub fn from_string(string: &String) -> (r: Option<Sprint>)
        ensures
            r == sprint_of_text(string@),
    {
        if text_is(string, "Sprint 1") {
            Some(Sprint::Sprint1)
        } else if text_is(string, "Sprint 2") {
            Some(Sprint::Sprint2)
        } else if text_is(string, "Sprint 3") {
            Some(Sprint::Sprint3)
        } else if text_is(string, "Sprint 4") {
            Some(Sprint::Sprint4)
        } else if text_is(string, "Project") || text_is(string, "Projekt") {
            Some(Sprint::Project)
        } else if text_is(string, "IDK") {
            Some(Sprint::Unclear)
        } else {
            None
        }
    }
}

/// How an achievement is presented.
#[derive(Clone, Copy, Debug, PartialEq, Eq, Structural, PartialOrd, Ord, Hash)]
pub enum PresentationType {
    Lab,
    Studium,
    Special,
    Report,
}

/// The name under which a presentation type is shown.
pub open spec fn presentation_type_text(p: PresentationType) -> Seq<char> {
    match p {
        PresentationType::Lab => "Lab"@,
        PresentationType::Studium => "Studium"@,
        PresentationType::Special => "Special"@,
        PresentationType::Report => "Report"@,
    }
}

impl PresentationType {
    /// The name under which this presentation type is shown.
    pub fn to_string(&self) -> (r: String)
        ensures
            r@ == presentation_type_text(*self),
    {
        match self {
            PresentationType::Lab => String::from_str("Lab"),
            PresentationType::Studium => String::from_str("Studium"),
            PresentationType::Special => String::from_str("Special"),
            PresentationType::Report => String::from_str("Report"),
        }
    }
}

/// The ways in which an achievement may be presented: one, or either of two.
#[derive(Clone, Copy, Debug, PartialEq, Eq, Structural, PartialOrd, Ord, Hash)]
pub enum AchievementPresention {
    Single(PresentationType),
    Either { first: PresentationType, second: PresentationType },
}

/// The text under which a presentation requirement is shown: `Lab` or `Lab, Studium`.
pub open spec fn presentation_text(p: AchievementPresention) -> Seq<char> {
    match p {
        AchievementPresention::Single(t) => presentation_type_text(t),
        AchievementPresention::Either { first, second } => presentation_type_text(first) + ", "@
            + presentation_type_text(second),
    }
}

/// The presentation requirement that a catalog text names, or `None` for a text it does not
/// know.
pub open spec fn presentation_of_text(s: Seq<char>) -> Option<AchievementPresention> {
    if s == "Lab"@ {
        Some(AchievementPresention::Single(PresentationType::Lab))
    } else if s == "Studium"@ {
        Some(AchievementPresention::Single(PresentationType::Studium))
    } else if s == "Special"@ {
        Some(AchievementPresention::Single(PresentationType::Special))
    } else if s == "Lab, Studium"@ {
        Some(
            AchievementPresention::Either {
                first: PresentationType::Lab,
                second: PresentationType::Studium,
            },
        )
    } else if s == "Report"@ {
        Some(AchievementPresention::Single(PresentationType::Report))
    } else {
        None
    }
}

impl AchievementPresention {
    /// Reads a presentation requirement from its catalog text.
    pub fn from_string(string: String) -> (r: AchievementPresention)
        requires
            presentation_of_text(string@) is Some,
        ensures
            presentation_of_text(string@) == Some(r),
    {
        if text_is(&string, "Lab") {
            AchievementPresention::Single(PresentationType::Lab)
        } else if text_is(&string, "Studium") {
            AchievementPresention::Single(PresentationType::Studium)
        } else if text_is(&string, "Special") {
            AchievementPresention::Single(PresentationType::Special)
        } else if text_is(&string, "Lab, Studium") {
            AchievementPresention::Either {
                first: PresentationType::Lab,
                second: PresentationType::Studium,
            }
        } else {
            AchievementPresention::Single(PresentationType::Report)
        }
    }

    /// The text under which this requirement is shown.
    pub fn to_string(&self) -> (r: String)
        ensures
            r@ == presentation_text(*self),
    {
        match self {
            AchievementPresention::Single(t) => t.to_string(),
            AchievementPresention::Either { first, second } => {
                let s = first.to_string().concat(", ");
                let t = second.to_string();
                s.concat(t.as_str())
            },
        }
    }
}

/// One gradable deliverable of the course. The deadline is an instant in seconds since the
/// Unix epoch.
#[derive(Debug)]
pub struct Achievement {
    pub id: String,
    pub title: String,
    pub deadline: Option<i64>,
    pub done: bool,
    pub present_soon: bool,
    pub grade: i8,
    pub presenting_type: AchievementPresention,
    pub programming_language: AchievementLanguage,
    pub sprint: Sprint,
    pub comment: Option<String>,
}

impl Clone for Achievement {
    fn clone(&self) -> (r: Self)
        ensures
            r == *self,
    {
        Achievement {
            id: self.id.clone(),
            title: self.title.clone(),
            deadline: self.deadline,
            done: self.done,
            present_soon: self.present_soon,
            grade: self.grade,
            presenting_type: self.presenting_type,
            programming_language: self.programming_language,
            sprint: self.sprint,
            comment: match &self.comment {
                Some(c) => Some(c.clone()),
                None => None,
            },
        }
    }
}

/// An achievement as the catalog file stores it: dates and tags as text.
#[derive(Debug)]
pub struct SerializableAchievement {
    pub id: String,
    pub title: String,
    pub deadline: Option<String>,
    pub done: bool,
    pub present_soon: bool,
    pub grade: i8,
    pub presenting_type: String,
    pub programming_language: String,
    pub sprint: Sprint,
    pub comment: Option<String>,
}

} // verus!
