//! Reading achievements from the catalog's stored form, and writing them back to it.
use vstd::prelude::*;

use crate::achievements::{
    Achievement, AchievementLanguage, AchievementPresention, SerializableAchievement, Sprint,
    language_of_text, presentation_of_text, sprint_of_text,
};
use crate::dates::{date_text_timestamp, format_date, parse_date_text, timestamp_date_text};
use crate::progress_tracker::texts_of;

verus! {

/// Whether every character of `s` is an ASCII digit.
pub open spec fn all_digits(s: Seq<char>) -> bool {
    forall|i: int| 0 <= i < s.len() ==> '0' <= #[trigger] s[i] <= '9'
}

/// The number that a string of decimal digits writes.
pub open spec fn digits_value(s: Seq<char>) -> int
    decreases s.len(),
{
    if s.len() == 0 {
        0
    } else {
        10 * digits_value(s.drop_last()) + (s.last() as int - '0' as int)
    }
}

/// The grade that a text writes as a decimal integer with an optional sign, or `None` where
/// it writes none that fits an `i8`.
pub open spec fn grade_of_text(s: Seq<char>) -> Option<i8> {
    let signed = s.len() > 0 && (s[0] == '-' || s[0] == '+');
    let body = if signed {
        s.drop_first()
    } else {
        s
    };
    let v = if s.len() > 0 && s[0] == '-' {
        -digits_value(body)
    } else {
        digits_value(body)
    };
    if body.len() == 0 || !all_digits(body) || v < -128 || v > 127 {
        None
    } else {
        Some(v as i8)
    }
}

proof fn lemma_digits_value_nonneg(s: Seq<char>)
    requires
        all_digits(s),
    ensures
        digits_value(s) >= 0,
    decreases s.len(),
{
    if s.len() > 0 {
        assert(all_digits(s.drop_last()));
        lemma_digits_value_nonneg(s.drop_last());
    }
}

/// A value past the range of a grade stays past it as digits are appended.
proof fn lemma_digits_value_grows(s: Seq<char>, k: int)
    requires
        all_digits(s),
        0 <= k <= s.len(),
        digits_value(s.take(k)) > 128,
    ensures
        digits_value(s) > 128,
    decreases s.len() - k,
{
    if k < s.len() {
        assert(s.take(k + 1).drop_last() =~= s.take(k));
        assert('0' <= s[k] <= '9');
        lemma_digits_value_grows(s, k + 1);
    } else {
        assert(s.take(k) =~= s);
    }
}

/// Reads a grade written as a decimal integer with an optional sign.
pub fn parse_grade(text: &str) -> (r: Option<i8>)
    ensures
        r == grade_of_text(text@),
{
    let n = text.unicode_len();
    let ghost s = text@;
    if n == 0 {
        return None;
    }
    let first = text.get_char(0);
    let negative = first == '-';
    let start: usize = if first == '-' || first == '+' {
        1
    } else {
        0
    };
    let ghost body = if start == 1 {
        s.drop_first()
    } else {
        s
    };
    assert(s[0] == first);
    assert(body == if s.len() > 0 && (s[0] == '-' || s[0] == '+') {
        s.drop_first()
    } else {
        s
    });
    if start == n {
        return None;
    }
    let mut value: u32 = 0;
    let mut i: usize = start;
    while i < n
        invariant
            s == text@,
            n == s.len(),
            start <= i <= n,
            start < n,
            body == s.subrange(start as int, n as int),
            body == if s.len() > 0 && (s[0] == '-' || s[0] == '+') {
                s.drop_first()
            } else {
                s
            },
            negative == (s[0] == '-'),
            all_digits(body.take(i - start)),
            value == digits_value(body.take(i - start)),
            value <= 128,
        decreases n - i,
    {
        let c = text.get_char(i);
        proof {
            assert(body[i - start] == c);
            assert(body.take(i - start + 1).drop_last() =~= body.take(i - start));
        }
        if c < '0' || c > '9' {
            proof {
                assert(!all_digits(body));
            }
            return None;
        }
        let digit = (c as u32) - ('0' as u32);
        value = value * 10 + digit;
        proof {
            assert(all_digits(body.take(i - start + 1)));
        }
        if value > 128 {
            proof {
                let k = i - start + 1;
                if all_digits(body) {
                    lemma_digits_value_grows(body, k);
                }
            }
            return None;
        }
        i = i + 1;
    }
    proof {
        assert(body.take(n - start) =~= body);
    }
    if negative {
        Some((0 - value as i32) as i8)
    } else if value > 127 {
        None
    } else {
        Some(value as i8)
    }
}

/// Why a stored achievement could not be read or written.
#[derive(Clone, Copy, Debug, PartialEq, Eq, Structural)]
pub enum RecordError {
    /// The row has fewer fields than the layout asks for.
    MissingField,
    /// The deadline is not a date like `Sep 2, 2024`.
    UnparseableDeadline,
    /// The deadline is an instant that no date text can be written for.
    UnrepresentableDeadline,
    /// The grade is not a decimal integer that fits an `i8`.
    BadGrade,
    /// The presentation type is none of the known ones.
    UnknownPresentation,
    /// The language is none of the known ones.
    UnknownLanguage,
    /// The sprint is none of the known ones.
    UnknownSprint,
}

/// The number of fields of a spreadsheet row: id, link, title, deadline, done, present soon,
/// grade, presentation type, language, sprint and comment.
pub const RECORD_FIELDS: usize = 11;

/// The deadline that a text gives: none for an empty text, else the date it names.
pub open spec fn deadline_of_text(s: Seq<char>) -> Result<Option<i64>, RecordError> {
    if s.len() == 0 {
        Ok(None)
    } else {
        match date_text_timestamp(s) {
            Some(d) => Ok(Some(d)),
            None => Err(RecordError::UnparseableDeadline),
        }
    }
}

/// The first thing wrong with a spreadsheet row, if anything is.
pub open spec fn record_error(f: Seq<Seq<char>>) -> Option<RecordError> {
    if f.len() < RECORD_FIELDS {
        Some(RecordError::MissingField)
    } else if deadline_of_text(f[3]) is Err {
        Some(RecordError::UnparseableDeadline)
    } else if grade_of_text(f[6]) is None {
        Some(RecordError::BadGrade)
    } else if presentation_of_text(f[7]) is None {
        Some(RecordError::UnknownPresentation)
    } else if language_of_text(f[8]) is None {
        Some(RecordError::UnknownLanguage)
    } else if sprint_of_text(f[9]) is None {
        Some(RecordError::UnknownSprint)
    } else {
        None
    }
}

/// Whether `a` is what a spreadsheet row without errors describes. The marks read `TRUE`
/// when set, and an empty comment is none.
pub open spec fn read_from_row(a: Achievement, f: Seq<Seq<char>>) -> bool {
    &&& a.id@ == f[0]
    &&& a.title@ == f[2]
    &&& deadline_of_text(f[3]) == Ok::<Option<i64>, RecordError>(a.deadline)
    &&& a.done == (f[4] == "TRUE"@)
    &&& a.present_soon == (f[5] == "TRUE"@)
    &&& grade_of_text(f[6]) == Some(a.grade)
    &&& presentation_of_text(f[7]) == Some(a.presenting_type)
    &&& language_of_text(f[8]) == Some(a.programming_language)
    &&& sprint_of_text(f[9]) == Some(a.sprint)
    &&& if f[10].len() == 0 {
        a.comment is None
    } else {
        a.comment is Some && a.comment->Some_0@ == f[10]
    }
}

fn read_deadline(text: &String) -> (r: Result<Option<i64>, RecordError>)
    ensures
        r == deadline_of_text(text@),
{
    if text.as_str().unicode_len() == 0 {
        Ok(None)
    } else {
        match parse_date_text(text.as_str()) {
            Some(d) => Ok(Some(d)),
            None => Err(RecordError::UnparseableDeadline),
        }
    }
}

fn is_true_mark(text: &String) -> (r: bool)
    ensures
        r == (text@ == "TRUE"@),
{
    let mark = String::from_str("TRUE");
    *text == mark
}

fn presentation_from(text: &String) -> (r: Option<AchievementPresention>)
    ensures
        r == presentation_of_text(text@),
{
    let known = String::from_str("Lab");
    let known2 = String::from_str("Studium");
    let known3 = String::from_str("Special");
    let known4 = String::from_str("Lab, Studium");
    let known5 = String::from_str("Report");
    if *text == known || *text == known2 || *text == known3 || *text == known4 || *text == known5 {
        Some(AchievementPresention::from_string(text.clone()))
    } else {
        None
    }
}

fn language_from(text: &String) -> (r: Option<AchievementLanguage>)
    ensures
        r == language_of_text(text@),
{
    let k1 = String::from_str("C");
    let k2 = String::from_str("Java");
    let k3 = String::from_str("Terminal");
    let k4 = String::from_str("Git");
    let k5 = String::from_str("Essä");
    let k6 = String::from_str("Möte");
    let k7 = String::from_str("NoLanguage");
    let k8 = String::from_str("C&Java");
    let k9 = String::from_str("C/Java");
    if *text == k1 || *text == k2 || *text == k3 || *text == k4 || *text == k5 || *text == k6
        || *text == k7 || *text == k8 || *text == k9 {
        Some(AchievementLanguage::from_string(text.clone()))
    } else {
        None
    }
}

/// Reads an achievement from a spreadsheet row (see `RECORD_FIELDS` for the layout). Fails
/// on the first field that cannot be read, in the order of the layout.
pub fn achievement_from_record(fields: &Vec<String>) -> (r: Result<Achievement, RecordError>)
    ensures
        match record_error(texts_of(fields@)) {
            Some(e) => r == Err::<Achievement, RecordError>(e),
            None => r is Ok && read_from_row(r->Ok_0, texts_of(fields@)),
        },
{
    let ghost f = texts_of(fields@);
    if fields.len() < RECORD_FIELDS {
        return Err(RecordError::MissingField);
    }
    proof {
        assert forall|i: int| 0 <= i < fields@.len() implies #[trigger] f[i] == fields@[i]@ by {}
    }
    let deadline = match read_deadline(&fields[3]) {
        Ok(d) => d,
        Err(e) => {
            return Err(e);
        },
    };
    let grade = match parse_grade(fields[6].as_str()) {
        Some(g) => g,
        None => {
            return Err(RecordError::BadGrade);
        },
    };
    let presenting_type = match presentation_from(&fields[7]) {
        Some(p) => p,
        None => {
            return Err(RecordError::UnknownPresentation);
        },
    };
    let programming_language = match language_from(&fields[8]) {
        Some(l) => l,
        None => {
            return Err(RecordError::UnknownLanguage);
        },
    };
    let sprint = match Sprint::from_string(&fields[9]) {
        Some(s) => s,
        None => {
            return Err(RecordError::UnknownSprint);
        },
    };
    let comment = if fields[10].as_str().unicode_len() == 0 {
        None
    } else {
        Some(fields[10].clone())
    };
    Ok(
        Achievement {
            id: fields[0].clone(),
            title: fields[2].clone(),
            deadline,
            done: is_true_mark(&fields[4]),
            present_soon: is_true_mark(&fields[5]),
            grade,
            presenting_type,
            programming_language,
            sprint,
            comment,
        },
    )
}

/// The first thing wrong with a stored achievement, if anything is.
pub open spec fn stored_error(s: SerializableAchievement) -> Option<RecordError> {
    if s.deadline is Some && date_text_timestamp(s.deadline->Some_0@) is None {
        Some(RecordError::UnparseableDeadline)
    } else if presentation_of_text(s.presenting_type@) is None {
        Some(RecordError::UnknownPresentation)
    } else if language_of_text(s.programming_language@) is None {
        Some(RecordError::UnknownLanguage)
    } else {
        None
    }
}

/// Whether `a` is what a stored achievement without errors describes.
pub open spec fn read_from_stored(a: Achievement, s: SerializableAchievement) -> bool {
    &&& a.id == s.id
    &&& a.title == s.title
    &&& match s.deadline {
        Some(t) => date_text_timestamp(t@) == Some(a.deadline->Some_0) && a.deadline is Some,
        None => a.deadline is None,
    }
    &&& a.done == s.done
    &&& a.present_soon == s.present_soon
    &&& a.grade == s.grade
    &&& presentation_of_text(s.presenting_type@) == Some(a.presenting_type)
    &&& language_of_text(s.programming_language@) == Some(a.programming_language)
    &&& a.sprint == s.sprint
    &&& a.comment == s.comment
}

/// Whether `s` is how achievement `a` is stored: its deadline as a date text, its tags as
/// the texts they are shown under.
pub open spec fn stored_as(s: SerializableAchievement, a: Achievement) -> bool {
    &&& s.id == a.id
    &&& s.title == a.title
    &&& match a.deadline {
        Some(d) => s.deadline is Some && timestamp_date_text(d) == Some(s.deadline->Some_0@),
        None => s.deadline is None,
    }
    &&& s.done == a.done
    &&& s.present_soon == a.present_soon
    &&& s.grade == a.grade
    &&& s.presenting_type@ == crate::achievements::presentation_text(a.presenting_type)
    &&& s.programming_language@ == crate::achievements::achievement_language_text(
        a.programming_language,
    )
    &&& s.sprint == a.sprint
    &&& s.comment == a.comment
}

impl Achievement {
    /// Reads an achievement from its stored form. Fails on a deadline that is no date, or
    /// on a presentation type or language that is not known, in that order.
    pub fn from_serializable(s: SerializableAchievement) -> (r: Result<Achievement, RecordError>)
        ensures
            match stored_error(s) {
                Some(e) => r == Err::<Achievement, RecordError>(e),
                None => r is Ok && read_from_stored(r->Ok_0, s),
            },
    {
        let deadline = match &s.deadline {
            Some(t) => match parse_date_text(t.as_str()) {
                Some(d) => Some(d),
                None => {
                    return Err(RecordError::UnparseableDeadline);
                },
            },
            None => None,
        };
        let presenting_type = match presentation_from(&s.presenting_type) {
            Some(p) => p,
            None => {
                return Err(RecordError::UnknownPresentation);
            },
        };
        let programming_language = match language_from(&s.programming_language) {
            Some(l) => l,
            None => {
                return Err(RecordError::UnknownLanguage);
            },
        };
        Ok(
            Achievement {
                id: s.id,
                title: s.title,
                deadline,
                done: s.done,
                present_soon: s.present_soon,
                grade: s.grade,
                presenting_type,
                programming_language,
                sprint: s.sprint,
                comment: s.comment,
            },
        )
    }

    /// The stored form of this achievement. Fails on a deadline that no date text can be
    /// written for.
    pub fn to_serializable(&self) -> (r: Result<SerializableAchievement, RecordError>)
        ensures
            match self.deadline {
                Some(d) => timestamp_date_text(d) is None ==> r == Err::<
                    SerializableAchievement,
                    RecordError,
                >(RecordError::UnrepresentableDeadline),
                None => true,
            },
            r is Ok <==> (self.deadline is None || timestamp_date_text(self.deadline->Some_0) is Some),
            r is Ok ==> stored_as(r->Ok_0, *self),
    {
        let deadline = match self.deadline {
            Some(d) => match format_date(d) {
                Some(t) => Some(t),
                None => {
                    return Err(RecordError::UnrepresentableDeadline);
                },
            },
            None => None,
        };
        let a = self.clone();
        Ok(
            SerializableAchievement {
                id: a.id,
                title: a.title,
                deadline,
                done: self.done,
                present_soon: self.present_soon,
                grade: self.grade,
                presenting_type: self.presenting_type.to_string(),
                programming_language: self.programming_language.to_string(),
                sprint: self.sprint,
                comment: a.comment,
            },
        )
    }
}

} // verus!
