//! The order of the grid's rows by one column, and a stable sort by it.
use vstd::prelude::*;
use vstd::seq_lib::to_multiset_update;

use crate::achievements::{
    Achievement, AchievementLanguage, AchievementPresention, PresentationType, ProgrammingLanguage,
    Sprint,
};
use crate::grid::{Direction, Fieled, Sort};

verus! {

/// Texts in Rust's order: character by character, a proper prefix first.
pub open spec fn text_lt(a: Seq<char>, b: Seq<char>) -> bool
    decreases a.len(),
{
    if a.len() == 0 {
        b.len() > 0
    } else if b.len() == 0 {
        false
    } else if a[0] != b[0] {
        (a[0] as int) < (b[0] as int)
    } else {
        text_lt(a.drop_first(), b.drop_first())
    }
}

/// Of two texts, one comes first or they are equal, and not both come first.
proof fn lemma_text_trichotomy(a: Seq<char>, b: Seq<char>)
    ensures
        !text_lt(a, a),
        text_lt(a, b) ==> !text_lt(b, a),
        text_lt(a, b) || a == b || text_lt(b, a),
    decreases a.len(),
{
    if a.len() > 0 {
        lemma_text_trichotomy(a.drop_first(), a.drop_first());
    }
    if a.len() > 0 && b.len() > 0 {
        lemma_text_trichotomy(a.drop_first(), b.drop_first());
        if a[0] == b[0] && a.drop_first() == b.drop_first() {
            assert(a =~= seq![a[0]] + a.drop_first());
            assert(b =~= seq![b[0]] + b.drop_first());
        }
    } else if a.len() == 0 && b.len() == 0 {
        assert(a =~= b);
    }
}

/// The order of texts is transitive.
proof fn lemma_text_transitive(a: Seq<char>, b: Seq<char>, c: Seq<char>)
    requires
        text_lt(a, b),
        text_lt(b, c),
    ensures
        text_lt(a, c),
    decreases a.len(),
{
    if a.len() > 0 {
        if a[0] == b[0] && b[0] == c[0] {
            lemma_text_transitive(a.drop_first(), b.drop_first(), c.drop_first());
        }
    }
}

/// The order of texts is a strict total order.
pub proof fn lemma_text_order(a: Seq<char>, b: Seq<char>, c: Seq<char>)
    ensures
        !text_lt(a, a),
        text_lt(a, b) ==> !text_lt(b, a),
        text_lt(a, b) || a == b || text_lt(b, a),
        text_lt(a, b) && text_lt(b, c) ==> text_lt(a, c),
{
    lemma_text_trichotomy(a, b);
    if text_lt(a, b) && text_lt(b, c) {
        lemma_text_transitive(a, b, c);
    }
}

/// Optional texts in Rust's order: none first.
pub open spec fn optional_text_lt(a: Option<String>, b: Option<String>) -> bool {
    match (a, b) {
        (None, Some(_)) => true,
        (Some(x), Some(y)) => text_lt(x@, y@),
        _ => false,
    }
}

/// Optional instants in Rust's order: none first.
pub open spec fn deadline_lt(a: Option<i64>, b: Option<i64>) -> bool {
    match (a, b) {
        (None, Some(_)) => true,
        (Some(x), Some(y)) => x < y,
        _ => false,
    }
}

/// The position of a presentation type in its declaration.
pub open spec fn presentation_type_index(t: PresentationType) -> int {
    match t {
        PresentationType::Lab => 0,
        PresentationType::Studium => 1,
        PresentationType::Special => 2,
        PresentationType::Report => 3,
    }
}

/// The position of a language in its declaration.
pub open spec fn language_index(l: ProgrammingLanguage) -> int {
    match l {
        ProgrammingLanguage::C => 0,
        ProgrammingLanguage::Java => 1,
        ProgrammingLanguage::Git => 2,
        ProgrammingLanguage::Bash => 3,
        ProgrammingLanguage::NoLanguage => 4,
    }
}

/// The position of a sprint in its declaration.
pub open spec fn sprint_index(s: Sprint) -> int {
    match s {
        Sprint::Sprint1 => 0,
        Sprint::Sprint2 => 1,
        Sprint::Sprint3 => 2,
        Sprint::Sprint4 => 3,
        Sprint::Project => 4,
        Sprint::Unclear => 5,
    }
}

/// The order of presentation requirements: variants in declaration order, then fields.
pub open spec fn presentation_rank(p: AchievementPresention) -> (int, int, int) {
    match p {
        AchievementPresention::Single(t) => (0, presentation_type_index(t), 0),
        AchievementPresention::Either { first, second } => (
            1,
            presentation_type_index(first),
            presentation_type_index(second),
        ),
    }
}

/// The order of language requirements: variants in declaration order, then fields.
pub open spec fn language_rank(l: AchievementLanguage) -> (int, int, int) {
    match l {
        AchievementLanguage::Single(p) => (0, language_index(p), 0),
        AchievementLanguage::Both { first, second } => (
            1,
            language_index(first),
            language_index(second),
        ),
        AchievementLanguage::Either { first, second } => (
            2,
            language_index(first),
            language_index(second),
        ),
    }
}

/// Lexicographic order on triples.
pub open spec fn rank_lt(a: (int, int, int), b: (int, int, int)) -> bool {
    a.0 < b.0 || (a.0 == b.0 && (a.1 < b.1 || (a.1 == b.1 && a.2 < b.2)))
}

/// Whether row `a` comes strictly before row `b` by column `f`, ascending.
pub open spec fn row_lt(f: Fieled, a: Achievement, b: Achievement) -> bool {
    match f {
        Fieled::ID => text_lt(a.id@, b.id@),
        Fieled::Title => text_lt(a.title@, b.title@),
        Fieled::Deadline => deadline_lt(a.deadline, b.deadline),
        Fieled::Done => !a.done && b.done,
        Fieled::PresentSoon => !a.present_soon && b.present_soon,
        Fieled::Grade => a.grade < b.grade,
        Fieled::PresentingType => rank_lt(
            presentation_rank(a.presenting_type),
            presentation_rank(b.presenting_type),
        ),
        Fieled::ProgrammingLanguage => rank_lt(
            language_rank(a.programming_language),
            language_rank(b.programming_language),
        ),
        Fieled::Sprint => sprint_index(a.sprint) < sprint_index(b.sprint),
        Fieled::Comment => optional_text_lt(a.comment, b.comment),
    }
}

/// Whether row `a` comes strictly before row `b` by column `f` in direction `d`; the default
/// direction is ascending.
pub open spec fn ordered_lt(f: Fieled, d: Direction, a: Achievement, b: Achievement) -> bool {
    match d {
        Direction::Descending => row_lt(f, b, a),
        _ => row_lt(f, a, b),
    }
}

/// The text order facts for every arrangement of three texts.
proof fn lemma_text_order3(a: Seq<char>, b: Seq<char>, c: Seq<char>)
    ensures
        text_lt(a, b) ==> !text_lt(b, a),
        !text_lt(a, b) && !text_lt(b, c) ==> !text_lt(a, c),
{
    lemma_text_order(a, b, c);
    lemma_text_order(a, c, b);
    lemma_text_order(b, a, c);
    lemma_text_order(b, c, a);
    lemma_text_order(c, a, b);
    lemma_text_order(c, b, a);
}

/// No row comes before a row that comes before it, and "not before" is transitive.
pub proof fn lemma_row_order(f: Fieled, a: Achievement, b: Achievement, c: Achievement)
    ensures
        row_lt(f, a, b) ==> !row_lt(f, b, a),
        !row_lt(f, a, b) && !row_lt(f, b, c) ==> !row_lt(f, a, c),
{
    match f {
        Fieled::ID => lemma_text_order3(a.id@, b.id@, c.id@),
        Fieled::Title => lemma_text_order3(a.title@, b.title@, c.title@),
        Fieled::Comment => {
            match (a.comment, b.comment, c.comment) {
                (Some(x), Some(y), Some(z)) => lemma_text_order3(x@, y@, z@),
                (Some(x), Some(y), None) => lemma_text_order3(x@, y@, y@),
                (Some(x), None, Some(z)) => lemma_text_order3(x@, z@, z@),
                (None, Some(y), Some(z)) => lemma_text_order3(y@, z@, z@),
                _ => {},
            }
        },
        _ => {},
    }
}

/// Whether `s` is in order by column `f` in direction `d`: no row comes strictly before a
/// row ahead of it.
pub open spec fn is_ordered(s: Seq<Achievement>, f: Fieled, d: Direction) -> bool {
    forall|i: int, j: int| 0 <= i < j < s.len() ==> !ordered_lt(f, d, #[trigger] s[j], #[trigger] s[i])
}

/// Whether the column tells neither of two rows to come before the other.
pub open spec fn ties(f: Fieled, d: Direction, a: Achievement, b: Achievement) -> bool {
    !ordered_lt(f, d, a, b) && !ordered_lt(f, d, b, a)
}

/// The rows of `s` that tie with `y`, in their order in `s`.
pub open spec fn tie_class(s: Seq<Achievement>, f: Fieled, d: Direction, y: Achievement) -> Seq<
    Achievement,
>
    decreases s.len(),
{
    if s.len() == 0 {
        s
    } else {
        let rest = tie_class(s.drop_last(), f, d, y);
        if ties(f, d, s.last(), y) {
            rest.push(s.last())
        } else {
            rest
        }
    }
}

/// Swapping two neighbouring rows that do not tie keeps the order of every class of tied
/// rows.
proof fn lemma_swap_keeps_ties(s: Seq<Achievement>, f: Fieled, d: Direction, y: Achievement, j: int)
    requires
        0 < j < s.len(),
        !ties(f, d, s[j - 1], s[j]),
    ensures
        tie_class(s.update(j - 1, s[j]).update(j, s[j - 1]), f, d, y) == tie_class(s, f, d, y),
    decreases s.len(),
{
    let t = s.update(j - 1, s[j]).update(j, s[j - 1]);
    if j == s.len() - 1 {
        lemma_ordered_order(f, d, s[j - 1], y, s[j]);
        lemma_ordered_order(f, d, s[j], y, s[j - 1]);
        let a = s[j - 1];
        let b = s[j];
        assert(t.drop_last().drop_last() =~= s.drop_last().drop_last());
        assert(t.drop_last().last() == b);
        assert(s.drop_last().last() == a);
        assert(t.last() == a);
        assert(s.last() == b);
        let c = tie_class(s.drop_last().drop_last(), f, d, y);
        assert(tie_class(s.drop_last(), f, d, y) == if ties(f, d, a, y) {
            c.push(a)
        } else {
            c
        });
        assert(tie_class(t.drop_last(), f, d, y) == if ties(f, d, b, y) {
            c.push(b)
        } else {
            c
        });
        assert(!(ties(f, d, a, y) && ties(f, d, b, y)));
    } else {
        assert(t.drop_last() =~= s.drop_last().update(j - 1, s[j]).update(j, s[j - 1]));
        lemma_swap_keeps_ties(s.drop_last(), f, d, y, j);
    }
}

proof fn lemma_ordered_order(f: Fieled, d: Direction, a: Achievement, b: Achievement, c: Achievement)
    ensures
        ordered_lt(f, d, a, b) ==> !ordered_lt(f, d, b, a),
        !ordered_lt(f, d, a, b) && !ordered_lt(f, d, b, c) ==> !ordered_lt(f, d, a, c),
{
    lemma_row_order(f, a, b, c);
    lemma_row_order(f, c, b, a);
}

fn presentation_type_key(t: PresentationType) -> (r: u8)
    ensures
        r as int == presentation_type_index(t),
{
    match t {
        PresentationType::Lab => 0,
        PresentationType::Studium => 1,
        PresentationType::Special => 2,
        PresentationType::Report => 3,
    }
}

fn language_key(l: ProgrammingLanguage) -> (r: u8)
    ensures
        r as int == language_index(l),
{
    match l {
        ProgrammingLanguage::C => 0,
        ProgrammingLanguage::Java => 1,
        ProgrammingLanguage::Git => 2,
        ProgrammingLanguage::Bash => 3,
        ProgrammingLanguage::NoLanguage => 4,
    }
}

fn sprint_key(s: Sprint) -> (r: u8)
    ensures
        r as int == sprint_index(s),
{
    match s {
        Sprint::Sprint1 => 0,
        Sprint::Sprint2 => 1,
        Sprint::Sprint3 => 2,
        Sprint::Sprint4 => 3,
        Sprint::Project => 4,
        Sprint::Unclear => 5,
    }
}

fn presentation_key(p: AchievementPresention) -> (r: (u8, u8, u8))
    ensures
        (r.0 as int, r.1 as int, r.2 as int) == presentation_rank(p),
{
    match p {
        AchievementPresention::Single(t) => (0, presentation_type_key(t), 0),
        AchievementPresention::Either { first, second } => (
            1,
            presentation_type_key(first),
            presentation_type_key(second),
        ),
    }
}

fn language_requirement_key(l: AchievementLanguage) -> (r: (u8, u8, u8))
    ensures
        (r.0 as int, r.1 as int, r.2 as int) == language_rank(l),
{
    match l {
        AchievementLanguage::Single(p) => (0, language_key(p), 0),
        AchievementLanguage::Both { first, second } => (1, language_key(first), language_key(second)),
        AchievementLanguage::Either { first, second } => (
            2,
            language_key(first),
            language_key(second),
        ),
    }
}

fn key_before(a: (u8, u8, u8), b: (u8, u8, u8)) -> (r: bool)
    ensures
        r == rank_lt((a.0 as int, a.1 as int, a.2 as int), (b.0 as int, b.1 as int, b.2 as int)),
{
    a.0 < b.0 || (a.0 == b.0 && (a.1 < b.1 || (a.1 == b.1 && a.2 < b.2)))
}

/// Whether text `a` comes strictly before text `b`.
pub fn text_before(a: &str, b: &str) -> (r: bool)
    ensures
        r == text_lt(a@, b@),
{
    let n = a.unicode_len();
    let m = b.unicode_len();
    let mut i: usize = 0;
    assert(a@.skip(0) =~= a@);
    assert(b@.skip(0) =~= b@);
    while i < n && i < m
        invariant
            n == a@.len(),
            m == b@.len(),
            i <= n,
            i <= m,
            text_lt(a@, b@) == text_lt(a@.skip(i as int), b@.skip(i as int)),
        decreases n - i,
    {
        let x = a.get_char(i);
        let y = b.get_char(i);
        proof {
            assert(a@.skip(i as int)[0] == x);
            assert(b@.skip(i as int)[0] == y);
        }
        if x != y {
            return (x as u32) < (y as u32);
        }
        proof {
            assert(a@.skip(i as int + 1) =~= a@.skip(i as int).drop_first());
            assert(b@.skip(i as int + 1) =~= b@.skip(i as int).drop_first());
        }
        i = i + 1;
    }
    i == n && i < m
}

fn optional_text_before(a: &Option<String>, b: &Option<String>) -> (r: bool)
    ensures
        r == optional_text_lt(*a, *b),
{
    match (a, b) {
        (None, Some(_)) => true,
        (Some(x), Some(y)) => text_before(x.as_str(), y.as_str()),
        _ => false,
    }
}

/// Whether row `a` comes strictly before row `b` by column `f`, ascending.
pub fn row_before(f: Fieled, a: &Achievement, b: &Achievement) -> (r: bool)
    ensures
        r == row_lt(f, *a, *b),
{
    match f {
        Fieled::ID => text_before(a.id.as_str(), b.id.as_str()),
        Fieled::Title => text_before(a.title.as_str(), b.title.as_str()),
        Fieled::Deadline => match (a.deadline, b.deadline) {
            (None, Some(_)) => true,
            (Some(x), Some(y)) => x < y,
            _ => false,
        },
        Fieled::Done => !a.done && b.done,
        Fieled::PresentSoon => !a.present_soon && b.present_soon,
        Fieled::Grade => a.grade < b.grade,
        Fieled::PresentingType => key_before(
            presentation_key(a.presenting_type),
            presentation_key(b.presenting_type),
        ),
        Fieled::ProgrammingLanguage => key_before(
            language_requirement_key(a.programming_language),
            language_requirement_key(b.programming_language),
        ),
        Fieled::Sprint => sprint_key(a.sprint) < sprint_key(b.sprint),
        Fieled::Comment => optional_text_before(&a.comment, &b.comment),
    }
}

fn ordered_before(f: Fieled, d: Direction, a: &Achievement, b: &Achievement) -> (r: bool)
    ensures
        r == ordered_lt(f, d, *a, *b),
{
    match d {
        Direction::Descending => row_before(f, b, a),
        _ => row_before(f, a, b),
    }
}

fn swap_adjacent(rows: &mut Vec<Achievement>, j: usize)
    requires
        0 < j < old(rows)@.len(),
    ensures
        final(rows)@ == old(rows)@.update(j - 1, old(rows)@[j as int]).update(
            j as int,
            old(rows)@[j - 1],
        ),
        final(rows)@.to_multiset() == old(rows)@.to_multiset(),
{
    let ghost s = rows@;
    let x = rows[j].clone();
    let y = rows[j - 1].clone();
    rows.set(j - 1, x);
    rows.set(j, y);
    proof {
        broadcast use vstd::multiset::group_multiset_axioms;

        let a = s[j as int];
        let b = s[j - 1];
        let m = s.to_multiset();
        let s1 = s.update(j - 1, a);
        to_multiset_update(s, j - 1, a);
        to_multiset_update(s1, j as int, b);
        assert(s1[j as int] == a);
        assert(rows@ == s1.update(j as int, b));
        s.to_multiset_ensures();
        assert(m.count(a) > 0);
        assert(m.count(b) > 0);
        assert(m.insert(a).remove(b).insert(b).remove(a) =~= m);
    }
}

/// Sorts the rows by column `f` in direction `d` (the default direction is ascending). The
/// sort is stable: rows that the column ties keep their order.
pub fn sort_rows(rows: &mut Vec<Achievement>, f: Fieled, d: Direction)
    ensures
        final(rows)@.to_multiset() == old(rows)@.to_multiset(),
        is_ordered(final(rows)@, f, d),
        forall|y: Achievement|
            #[trigger] tie_class(final(rows)@, f, d, y) == tie_class(old(rows)@, f, d, y),
{
    let n = rows.len();
    let mut i: usize = 1;
    if n == 0 {
        return;
    }
    while i < n
        invariant
            rows@.len() == n,
            1 <= i <= n,
            rows@.to_multiset() == old(rows)@.to_multiset(),
            forall|y: Achievement|
                #[trigger] tie_class(rows@, f, d, y) == tie_class(old(rows)@, f, d, y),
            forall|p: int, q: int|
                0 <= p < q < i ==> !ordered_lt(f, d, #[trigger] rows@[q], #[trigger] rows@[p]),
        decreases n - i,
    {
        let mut j: usize = i;
        let ghost x = rows@[i as int];
        while j > 0 && ordered_before(f, d, &rows[j], &rows[j - 1])
            invariant
                rows@.len() == n,
                0 <= j <= i < n,
                rows@[j as int] == x,
                rows@.to_multiset() == old(rows)@.to_multiset(),
                forall|y: Achievement|
                    #[trigger] tie_class(rows@, f, d, y) == tie_class(old(rows)@, f, d, y),
                forall|p: int, q: int|
                    0 <= p < q <= i && p != j && q != j ==> !ordered_lt(
                        f,
                        d,
                        #[trigger] rows@[q],
                        #[trigger] rows@[p],
                    ),
                forall|q: int| j < q <= i ==> ordered_lt(f, d, x, #[trigger] rows@[q]),
            decreases j,
        {
            let ghost before = rows@;
            swap_adjacent(rows, j);
            proof {
                lemma_ordered_order(f, d, before[j as int], before[j - 1], before[j as int]);
                assert forall|y: Achievement|
                    #[trigger] tie_class(rows@, f, d, y) == tie_class(old(rows)@, f, d, y) by {
                    lemma_swap_keeps_ties(before, f, d, y, j as int);
                }
            }
            j = j - 1;
        }
        proof {
            assert forall|p: int, q: int| 0 <= p < q <= i implies !ordered_lt(
                f,
                d,
                #[trigger] rows@[q],
                #[trigger] rows@[p],
            ) by {
                if p == j {
                    lemma_ordered_order(f, d, x, rows@[q], x);
                } else if q == j {
                    if p < j - 1 {
                        lemma_ordered_order(f, d, x, rows@[j - 1], rows@[p]);
                    }
                }
            }
        }
        i = i + 1;
    }
}

/// A click on column `fieled`: the sort state turns round or moves to that column (see
/// `Sort::reverse`), and the rows are then sorted by the column in its new direction.
pub fn sort_achievements(achievements: &mut Vec<Achievement>, sorting: &mut Sort, fieled: Fieled)
    ensures
        old(sorting).fieled == fieled ==> *final(sorting) == old(sorting).with_direction(
            fieled,
            old(sorting).direction_of(fieled).reverse_spec(),
        ),
        old(sorting).fieled != fieled ==> *final(sorting) == Sort::from_spec(fieled),
        final(achievements)@.to_multiset() == old(achievements)@.to_multiset(),
        is_ordered(
            final(achievements)@,
            final(sorting).fieled,
            final(sorting).direction_of(final(sorting).fieled),
        ),
        forall|y: Achievement|
            #[trigger] tie_class(
                final(achievements)@,
                final(sorting).fieled,
                final(sorting).direction_of(final(sorting).fieled),
                y,
            ) == tie_class(
                old(achievements)@,
                final(sorting).fieled,
                final(sorting).direction_of(final(sorting).fieled),
                y,
            ),
{
    sorting.reverse(fieled);
    let f = sorting.fieled;
    let d = match f {
        Fieled::ID => sorting.id,
        Fieled::Title => sorting.title,
        Fieled::Deadline => sorting.deadline,
        Fieled::Done => sorting.done,
        Fieled::PresentSoon => sorting.present_soon,
        Fieled::Grade => sorting.grade,
        Fieled::PresentingType => sorting.presenting_type,
        Fieled::ProgrammingLanguage => sorting.programming_language,
        Fieled::Sprint => sorting.sprint,
        Fieled::Comment => sorting.comment,
    };
    sort_rows(achievements, f, d);
}

} // verus!
