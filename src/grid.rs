//! Sorting and filtering of the achievement grid.
use vstd::prelude::*;
use vstd::std_specs::cmp::PartialEqSpec;

use crate::achievements::{Achievement, AchievementLanguage, AchievementPresention, Sprint};

verus! {

/// Whether a filter hides the values it lists or shows only them.
#[derive(Clone, Copy, Debug, PartialEq, Eq, Structural)]
pub enum FilterType {
    Remove,
    Include,
}

/// A filter on one column: a list of values and what to do with the rows that hold one.
pub struct Filter<T> {
    pub typ: FilterType,
    pub value: Vec<T>,
}

impl<T: PartialEq> Filter<T> {
    /// An empty filter that hides nothing.
    pub fn new() -> (r: Self)
        ensures
            r.typ == FilterType::Remove,
            r.value@.len() == 0,
    {
        Filter { typ: FilterType::Remove, value: Vec::new() }
    }

    /// Adds a value to the list.
    pub fn push(&mut self, value: T)
        ensures
            final(self).typ == old(self).typ,
            final(self).value@ == old(self).value@.push(value),
    {
        self.value.push(value);
    }

    /// A right click on a cell holding `value`: with `only`, the filter shows nothing but
    /// that value; otherwise it hides the value as well as those it already lists.
    pub fn select(&mut self, value: T, only: bool)
        ensures
            only ==> final(self).typ == FilterType::Include && final(self).value@ == seq![value],
            !only ==> final(self).typ == FilterType::Remove && final(self).value@ == old(
                self,
            ).value@.push(value),
    {
        if only {
            self.value = Vec::new();
            self.typ = FilterType::Include;
        } else {
            self.typ = FilterType::Remove;
        }
        self.value.push(value);
        proof {
            if only {
                assert(self.value@ =~= seq![value]);
            }
        }
    }

    /// Whether the list holds a value equal to `value`.
    pub fn contains(&self, value: &T) -> (r: bool)
        ensures
            T::obeys_eq_spec() ==> (r <==> exists|i: int|
                0 <= i < self.value@.len() && (#[trigger] self.value@[i]).eq_spec(value)),
    {
        let mut i: usize = 0;
        while i < self.value.len()
            invariant
                i <= self.value@.len(),
                T::obeys_eq_spec() ==> forall|k: int|
                    0 <= k < i ==> !(#[trigger] self.value@[k]).eq_spec(value),
            decreases self.value@.len() - i,
        {
            if self.value[i] == *value {
                return true;
            }
            i = i + 1;
        }
        false
    }
}

/// The order of a column.
#[derive(Clone, Copy, Debug, PartialEq, Eq, Structural)]
pub enum Direction {
    Ascending,
    Descending,
    Default,
}

impl Direction {
    /// The order a second click on the column gives: ascending and descending swap, and the
    /// default order becomes ascending.
    pub open spec fn reverse_spec(self) -> Direction {
        match self {
            Direction::Ascending => Direction::Descending,
            Direction::Descending => Direction::Ascending,
            Direction::Default => Direction::Ascending,
        }
    }

    /// The order a second click on the column gives.
    pub fn reverse(&self) -> (r: Direction)
        ensures
            r == self.reverse_spec(),
    {
        match self {
            Direction::Ascending => Direction::Descending,
            Direction::Descending => Direction::Ascending,
            Direction::Default => Direction::Ascending,
        }
    }

    /// The name of this order.
    pub fn to_string(&self) -> (r: String)
        ensures
            r@ == match *self {
                Direction::Ascending => "ascending"@,
                Direction::Descending => "descending"@,
                Direction::Default => "default"@,
            },
    {
        match self {
            Direction::Ascending => String::from_str("ascending"),
            Direction::Descending => String::from_str("descending"),
            Direction::Default => String::from_str("default"),
        }
    }
}

/// A column of the grid.
#[derive(Clone, Copy, Debug, PartialEq, Eq, Structural)]
pub enum Fieled {
    ID,
    Title,
    Deadline,
    Done,
    PresentSoon,
    Grade,
    PresentingType,
    ProgrammingLanguage,
    Sprint,
    Comment,
}

/// The order of each column, and the column the grid is sorted by.
#[derive(Clone, Copy, Debug, PartialEq, Eq, Structural)]
pub struct Sort {
    pub id: Direction,
    pub title: Direction,
    pub deadline: Direction,
    pub done: Direction,
    pub present_soon: Direction,
    pub grade: Direction,
    pub presenting_type: Direction,
    pub programming_language: Direction,
    pub sprint: Direction,
    pub comment: Direction,
    pub fieled: Fieled,
}

impl Sort {
    /// The order of column `f`.
    pub open spec fn direction_of(self, f: Fieled) -> Direction {
        match f {
            Fieled::ID => self.id,
            Fieled::Title => self.title,
            Fieled::Deadline => self.deadline,
            Fieled::Done => self.done,
            Fieled::PresentSoon => self.present_soon,
            Fieled::Grade => self.grade,
            Fieled::PresentingType => self.presenting_type,
            Fieled::ProgrammingLanguage => self.programming_language,
            Fieled::Sprint => self.sprint,
            Fieled::Comment => self.comment,
        }
    }

    /// This sort with column `f` in order `d`.
    pub open spec fn with_direction(self, f: Fieled, d: Direction) -> Sort {
        match f {
            Fieled::ID => Sort { id: d, ..self },
            Fieled::Title => Sort { title: d, ..self },
            Fieled::Deadline => Sort { deadline: d, ..self },
            Fieled::Done => Sort { done: d, ..self },
            Fieled::PresentSoon => Sort { present_soon: d, ..self },
            Fieled::Grade => Sort { grade: d, ..self },
            Fieled::PresentingType => Sort { presenting_type: d, ..self },
            Fieled::ProgrammingLanguage => Sort { programming_language: d, ..self },
            Fieled::Sprint => Sort { sprint: d, ..self },
            Fieled::Comment => Sort { comment: d, ..self },
        }
    }

    /// Every column in its default order, sorted by the id.
    pub open spec fn new_spec() -> Sort {
        Sort {
            id: Direction::Default,
            title: Direction::Default,
            deadline: Direction::Default,
            done: Direction::Default,
            present_soon: Direction::Default,
            grade: Direction::Default,
            presenting_type: Direction::Default,
            programming_language: Direction::Default,
            sprint: Direction::Default,
            comment: Direction::Default,
            fieled: Fieled::ID,
        }
    }

    /// Sorted ascending by column `f`, every other column in its default order.
    pub open spec fn from_spec(f: Fieled) -> Sort {
        Sort { fieled: f, ..Self::new_spec().with_direction(f, Direction::Ascending) }
    }

    /// Every column in its default order, sorted by the id.
    pub fn new() -> (r: Self)
        ensures
            r == Self::new_spec(),
    {
        Sort {
            id: Direction::Default,
            title: Direction::Default,
            deadline: Direction::Default,
            done: Direction::Default,
            present_soon: Direction::Default,
            grade: Direction::Default,
            presenting_type: Direction::Default,
            programming_language: Direction::Default,
            sprint: Direction::Default,
            comment: Direction::Default,
            fieled: Fieled::ID,
        }
    }

    /// Sorted ascending by column `fieled`, every other column in its default order.
    pub fn from(fieled: Fieled) -> (r: Self)
        ensures
            r == Self::from_spec(fieled),
    {
        let mut sort = Self::new();
        match fieled {
            Fieled::ID => sort.id = Direction::Ascending,
            Fieled::Title => sort.title = Direction::Ascending,
            Fieled::Deadline => sort.deadline = Direction::Ascending,
            Fieled::Done => sort.done = Direction::Ascending,
            Fieled::PresentSoon => sort.present_soon = Direction::Ascending,
            Fieled::Grade => sort.grade = Direction::Ascending,
            Fieled::PresentingType => sort.presenting_type = Direction::Ascending,
            Fieled::ProgrammingLanguage => sort.programming_language = Direction::Ascending,
            Fieled::Sprint => sort.sprint = Direction::Ascending,
            Fieled::Comment => sort.comment = Direction::Ascending,
        }
        sort.fieled = fieled;
        sort
    }

    /// A click on column `fieled`: the column sorted by turns its order round; any other
    /// column becomes the one sorted by, ascending, and the rest go back to their default.
    pub fn reverse(&mut self, fieled: Fieled)
        ensures
            old(self).fieled == fieled ==> *final(self) == old(self).with_direction(
                fieled,
                old(self).direction_of(fieled).reverse_spec(),
            ),
            old(self).fieled != fieled ==> *final(self) == Self::from_spec(fieled),
    {
        if self.fieled == fieled {
            match self.fieled {
                Fieled::ID => self.id = self.id.reverse(),
                Fieled::Title => self.title = self.title.reverse(),
                Fieled::Deadline => self.deadline = self.deadline.reverse(),
                Fieled::Done => self.done = self.done.reverse(),
                Fieled::PresentSoon => self.present_soon = self.present_soon.reverse(),
                Fieled::Grade => self.grade = self.grade.reverse(),
                Fieled::PresentingType => self.presenting_type = self.presenting_type.reverse(),
                Fieled::ProgrammingLanguage => self.programming_language = self.programming_language.reverse(),
                Fieled::Sprint => self.sprint = self.sprint.reverse(),
                Fieled::Comment => self.comment = self.comment.reverse(),
            }
            return;
        }
        *self = Self::from(fieled);
    }
}

/// The view the window shows.
#[derive(Clone, Copy, Debug, PartialEq, Eq, Structural)]
pub enum ActiveWindow {
    Achievements,
    ProgressTracker,
    Settings,
}

/// A filter on each column of the grid. Deadlines are instants in seconds since the Unix
/// epoch.
pub struct Filters {
    pub id: Filter<String>,
    pub title: Filter<String>,
    pub deadline: Filter<Option<i64>>,
    pub done: Filter<bool>,
    pub present_soon: Filter<bool>,
    pub grade: Filter<i8>,
    pub presenting_type: Filter<AchievementPresention>,
    pub programming_language: Filter<AchievementLanguage>,
    pub sprint: Filter<Sprint>,
    pub comment: Filter<Option<String>>,
}

/// Whether a filter is empty and hides nothing.
pub open spec fn is_cleared<T>(f: Filter<T>) -> bool {
    f.typ == FilterType::Remove && f.value@.len() == 0
}

impl Filters {
    /// No filter on any column.
    pub fn new() -> (r: Self)
        ensures
            is_cleared(r.id),
            is_cleared(r.title),
            is_cleared(r.deadline),
            is_cleared(r.done),
            is_cleared(r.present_soon),
            is_cleared(r.grade),
            is_cleared(r.presenting_type),
            is_cleared(r.programming_language),
            is_cleared(r.sprint),
            is_cleared(r.comment),
    {
        Filters {
            id: Filter::new(),
            title: Filter::new(),
            deadline: Filter::new(),
            done: Filter::new(),
            present_soon: Filter::new(),
            grade: Filter::new(),
            presenting_type: Filter::new(),
            programming_language: Filter::new(),
            sprint: Filter::new(),
            comment: Filter::new(),
        }
    }
}

/// Whether a row whose value is listed (or not) passes a filter of this type: an including
/// filter passes exactly the listed values, a removing one exactly the others.
pub open spec fn passes(typ: FilterType, listed: bool) -> bool {
    (typ == FilterType::Include) == listed
}

/// Whether some text of the list equals `v`.
pub open spec fn text_listed(list: Seq<String>, v: String) -> bool {
    exists|i: int| 0 <= i < list.len() && (#[trigger] list[i])@ == v@
}

/// Whether some optional text of the list equals `v`.
pub open spec fn optional_text_listed(list: Seq<Option<String>>, v: Option<String>) -> bool {
    exists|i: int|
        0 <= i < list.len() && match (#[trigger] list[i], v) {
            (Some(x), Some(y)) => x@ == y@,
            (None, None) => true,
            _ => false,
        }
}

/// Whether an achievement passes every column's filter.
pub open spec fn passes_all(f: Filters, a: Achievement) -> bool {
    &&& passes(f.id.typ, text_listed(f.id.value@, a.id))
    &&& passes(f.title.typ, text_listed(f.title.value@, a.title))
    &&& passes(f.deadline.typ, f.deadline.value@.contains(a.deadline))
    &&& passes(f.done.typ, f.done.value@.contains(a.done))
    &&& passes(f.present_soon.typ, f.present_soon.value@.contains(a.present_soon))
    &&& passes(f.grade.typ, f.grade.value@.contains(a.grade))
    &&& passes(f.presenting_type.typ, f.presenting_type.value@.contains(a.presenting_type))
    &&& passes(
        f.programming_language.typ,
        f.programming_language.value@.contains(a.programming_language),
    )
    &&& passes(f.sprint.typ, f.sprint.value@.contains(a.sprint))
    &&& passes(f.comment.typ, optional_text_listed(f.comment.value@, a.comment))
}

/// The rows of `s` that pass the filters, each with its position in `s`, in order.
pub open spec fn kept_rows(s: Seq<Achievement>, f: Filters) -> Seq<(usize, Achievement)>
    decreases s.len(),
{
    if s.len() == 0 {
        Seq::empty()
    } else {
        let rest = kept_rows(s.drop_last(), f);
        if passes_all(f, s.last()) {
            rest.push(((s.len() - 1) as usize, s.last()))
        } else {
            rest
        }
    }
}

fn holds_text(list: &Vec<String>, v: &String) -> (r: bool)
    ensures
        r == text_listed(list@, *v),
{
    let mut i: usize = 0;
    while i < list.len()
        invariant
            i <= list@.len(),
            forall|k: int| 0 <= k < i ==> (#[trigger] list@[k])@ != v@,
        decreases list@.len() - i,
    {
        if list[i] == *v {
            return true;
        }
        i = i + 1;
    }
    false
}

fn holds_optional_text(list: &Vec<Option<String>>, v: &Option<String>) -> (r: bool)
    ensures
        r == optional_text_listed(list@, *v),
{
    let mut i: usize = 0;
    while i < list.len()
        invariant
            i <= list@.len(),
            forall|k: int|
                0 <= k < i ==> !match (#[trigger] list@[k], *v) {
                    (Some(x), Some(y)) => x@ == y@,
                    (None, None) => true,
                    _ => false,
                },
        decreases list@.len() - i,
    {
        let same = match (&list[i], v) {
            (Some(x), Some(y)) => *x == *y,
            (None, None) => true,
            _ => false,
        };
        if same {
            return true;
        }
        i = i + 1;
    }
    false
}

fn holds_presentation(list: &Vec<AchievementPresention>, v: &AchievementPresention) -> (r: bool)
    ensures
        r == list@.contains(*v),
{
    let mut i: usize = 0;
    while i < list.len()
        invariant
            i <= list@.len(),
            forall|k: int| 0 <= k < i ==> #[trigger] list@[k] != *v,
        decreases list@.len() - i,
    {
        if list[i] == *v {
            return true;
        }
        i = i + 1;
    }
    false
}

fn holds_language(list: &Vec<AchievementLanguage>, v: &AchievementLanguage) -> (r: bool)
    ensures
        r == list@.contains(*v),
{
    let mut i: usize = 0;
    while i < list.len()
        invariant
            i <= list@.len(),
            forall|k: int| 0 <= k < i ==> #[trigger] list@[k] != *v,
        decreases list@.len() - i,
    {
        if list[i] == *v {
            return true;
        }
        i = i + 1;
    }
    false
}

fn holds_sprint(list: &Vec<Sprint>, v: &Sprint) -> (r: bool)
    ensures
        r == list@.contains(*v),
{
    let mut i: usize = 0;
    while i < list.len()
        invariant
            i <= list@.len(),
            forall|k: int| 0 <= k < i ==> #[trigger] list@[k] != *v,
        decreases list@.len() - i,
    {
        if list[i] == *v {
            return true;
        }
        i = i + 1;
    }
    false
}

/// Whether an achievement passes every column's filter.
pub fn passes_filters(f: &Filters, a: &Achievement) -> (r: bool)
    ensures
        r == passes_all(*f, *a),
{
    passes_type(f.id.typ, holds_text(&f.id.value, &a.id))
        && passes_type(f.title.typ, holds_text(&f.title.value, &a.title))
        && passes_type(f.deadline.typ, f.deadline.contains(&a.deadline))
        && passes_type(f.done.typ, f.done.contains(&a.done))
        && passes_type(f.present_soon.typ, f.present_soon.contains(&a.present_soon))
        && passes_type(f.grade.typ, f.grade.contains(&a.grade))
        && passes_type(f.presenting_type.typ, holds_presentation(&f.presenting_type.value, &a.presenting_type))
        && passes_type(
        f.programming_language.typ,
        holds_language(&f.programming_language.value, &a.programming_language),
    ) && passes_type(f.sprint.typ, holds_sprint(&f.sprint.value, &a.sprint)) && passes_type(
        f.comment.typ,
        holds_optional_text(&f.comment.value, &a.comment),
    )
}

fn passes_type(typ: FilterType, listed: bool) -> (r: bool)
    ensures
        r == passes(typ, listed),
{
    (typ == FilterType::Include) == listed
}

/// The achievements that pass every column's filter, each with its position in the
/// catalog, in catalog order.
pub fn filtered_achievements(achievements: &Vec<Achievement>, filters: &Filters) -> (r: Vec<
    (usize, Achievement),
>)
    ensures
        r@ == kept_rows(achievements@, *filters),
{
    let ghost s = achievements@;
    let mut out: Vec<(usize, Achievement)> = Vec::new();
    let mut i: usize = 0;
    while i < achievements.len()
        invariant
            s == achievements@,
            i <= s.len(),
            out@ == kept_rows(s.take(i as int), *filters),
        decreases s.len() - i,
    {
        proof {
            assert(s.take(i as int + 1).drop_last() =~= s.take(i as int));
        }
        if passes_filters(filters, &achievements[i]) {
            out.push((i, achievements[i].clone()));
        }
        i = i + 1;
    }
    proof {
        assert(s.take(s.len() as int) =~= s);
    }
    out
}

/// Marks every achievement as not done.
pub fn clear_done(achievements: &mut Vec<Achievement>)
    ensures
        final(achievements)@.len() == old(achievements)@.len(),
        forall|i: int|
            0 <= i < old(achievements)@.len() ==> #[trigger] final(achievements)@[i] == (
            Achievement { done: false, ..old(achievements)@[i] }),
{
    let mut i: usize = 0;
    while i < achievements.len()
        invariant
            achievements@.len() == old(achievements)@.len(),
            i <= achievements@.len(),
            forall|k: int|
                0 <= k < i ==> #[trigger] achievements@[k] == (Achievement {
                    done: false,
                    ..old(achievements)@[k]
                }),
            forall|k: int| i <= k < achievements@.len() ==> #[trigger] achievements@[k] == old(achievements)@[k],
        decreases achievements@.len() - i,
    {
        let mut a = achievements[i].clone();
        a.done = false;
        achievements.set(i, a);
        i = i + 1;
    }
}

/// Clears every achievement's present-soon mark.
pub fn clear_present_soon(achievements: &mut Vec<Achievement>)
    ensures
        final(achievements)@.len() == old(achievements)@.len(),
        forall|i: int|
            0 <= i < old(achievements)@.len() ==> #[trigger] final(achievements)@[i] == (
            Achievement { present_soon: false, ..old(achievements)@[i] }),
{
    let mut i: usize = 0;
    while i < achievements.len()
        invariant
            achievements@.len() == old(achievements)@.len(),
            i <= achievements@.len(),
            forall|k: int|
                0 <= k < i ==> #[trigger] achievements@[k] == (Achievement {
                    present_soon: false,
                    ..old(achievements)@[k]
                }),
            forall|k: int| i <= k < achievements@.len() ==> #[trigger] achievements@[k] == old(achievements)@[k],
        decreases achievements@.len() - i,
    {
        let mut a = achievements[i].clone();
        a.present_soon = false;
        achievements.set(i, a);
        i = i + 1;
    }
}

} // verus!
