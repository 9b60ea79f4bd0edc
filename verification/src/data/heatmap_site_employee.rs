//! Counts per site and employee type, as the heatmap takes them.

use vstd::prelude::*;
use vstd::string::*;
use crate::data::counts::spec_to_fixed;
use crate::data::counts::to_fixed;

verus! {

/// Whether the bytes `a` come before the bytes `b` in the dictionary: at
/// the first place where they differ `a` has the lesser byte, or `a` ends
/// where `b` goes on.
pub open spec fn lex_lt(a: Seq<u8>, b: Seq<u8>) -> bool
    decreases a.len(),
{
    if b.len() == 0 {
        false
    } else if a.len() == 0 {
        true
    } else if a[0] != b[0] {
        a[0] < b[0]
    } else {
        lex_lt(a.drop_first(), b.drop_first())
    }
}

/// Whether the text `a` comes before the text `b`: by their bytes in
/// UTF-8, which is the order of their characters.
pub open spec fn text_lt(a: Seq<char>, b: Seq<char>) -> bool {
    lex_lt(vstd::utf8::encode_utf8(a), vstd::utf8::encode_utf8(b))
}

/// Nothing comes before itself.
pub proof fn lemma_lex_irreflexive(a: Seq<u8>)
    ensures
        !lex_lt(a, a),
    decreases a.len(),
{
    if a.len() > 0 {
        lemma_lex_irreflexive(a.drop_first());
    }
}

/// What comes before something that comes before a third comes before the
/// third.
pub proof fn lemma_lex_transitive(a: Seq<u8>, b: Seq<u8>, c: Seq<u8>)
    requires
        lex_lt(a, b),
        lex_lt(b, c),
    ensures
        lex_lt(a, c),
    decreases a.len(),
{
    if a.len() > 0 && a[0] == b[0] && b[0] == c[0] {
        lemma_lex_transitive(a.drop_first(), b.drop_first(), c.drop_first());
    }
}

/// Of two sequences of bytes one comes before the other, or they are the
/// same.
pub proof fn lemma_lex_total(a: Seq<u8>, b: Seq<u8>)
    ensures
        lex_lt(a, b) || lex_lt(b, a) || a == b,
    decreases a.len(),
{
    if a.len() > 0 && b.len() > 0 && a[0] == b[0] {
        lemma_lex_total(a.drop_first(), b.drop_first());
        if a.drop_first() == b.drop_first() {
            assert(a =~= seq![a[0]] + a.drop_first());
        }
    }
}

/// Texts with the same bytes are the same text.
pub proof fn lemma_same_bytes_same_text(a: Seq<char>, b: Seq<char>)
    requires
        vstd::utf8::encode_utf8(a) == vstd::utf8::encode_utf8(b),
    ensures
        a == b,
{
    vstd::utf8::encode_utf8_decode_utf8(a);
    vstd::utf8::encode_utf8_decode_utf8(b);
}

/// Whether `a` comes before `b`.
pub fn text_before(a: &String, b: &String) -> (before: bool)
    ensures
        before == text_lt(a@, b@),
{
    broadcast use vstd::slice::group_slice_axioms;

    let x = a.as_str().as_bytes();
    let y = b.as_str().as_bytes();
    let mut i: usize = 0;
    assert(x@.skip(0) =~= x@);
    assert(y@.skip(0) =~= y@);
    while i < x.len() && i < y.len()
        invariant
            i <= x@.len(),
            i <= y@.len(),
            x@ == vstd::utf8::encode_utf8(a@),
            y@ == vstd::utf8::encode_utf8(b@),
            lex_lt(x@, y@) == lex_lt(x@.skip(i as int), y@.skip(i as int)),
        decreases x.len() - i,
    {
        if x[i] != y[i] {
            return x[i] < y[i];
        }
        assert(x@.skip(i as int).drop_first() =~= x@.skip(i + 1));
        assert(y@.skip(i as int).drop_first() =~= y@.skip(i + 1));
        i += 1;
    }
    i < y.len()
}

/// Whether each text of the list comes before the next.
pub open spec fn ascending(list: Seq<String>) -> bool {
    forall|i: int, j: int|
        0 <= i < j < list.len() ==> text_lt(#[trigger] list[i]@, #[trigger] list[j]@)
}

/// An ascending list names no text twice.
pub proof fn lemma_ascending_names_once(list: Seq<String>, i: int, j: int)
    requires
        ascending(list),
        0 <= i < j < list.len(),
    ensures
        list[i]@ != list[j]@,
{
    lemma_lex_irreflexive(vstd::utf8::encode_utf8(list[i]@));
}

/// Whether the list holds the text.
pub open spec fn has_text(list: Seq<String>, text: Seq<char>) -> bool {
    exists|i: int| 0 <= i < list.len() && #[trigger] list[i]@ == text
}

/// Puts `text` into an ascending list at its place, unless the list holds
/// it already.
pub fn insert_sorted(list: &mut Vec<String>, text: String)
    requires
        ascending(old(list)@),
    ensures
        ascending(final(list)@),
        has_text(final(list)@, text@),
        forall|t: Seq<char>| has_text(final(list)@, t) <==> has_text(old(list)@, t) || t == text@,
{
    let mut i: usize = 0;
    while i < list.len() && text_before(&list[i], &text)
        invariant
            i <= list@.len(),
            list@ == old(list)@,
            forall|j: int| 0 <= j < i ==> text_lt(#[trigger] list@[j]@, text@),
        decreases list.len() - i,
    {
        i += 1;
    }
    let ghost before = list@;
    if i < list.len() && !text_before(&text, &list[i]) {
        proof {
            lemma_lex_total(
                vstd::utf8::encode_utf8(text@),
                vstd::utf8::encode_utf8(list@[i as int]@),
            );
            lemma_same_bytes_same_text(text@, list@[i as int]@);
        }
        return ;
    }
    list.insert(i, text);
    proof {
        assert(list@[i as int]@ == text@);
        assert forall|p: int, q: int| 0 <= p < q < list@.len() implies text_lt(
            #[trigger] list@[p]@,
            #[trigger] list@[q]@,
        ) by {
            if p == i && q - 1 > i {
                lemma_lex_transitive(
                    vstd::utf8::encode_utf8(text@),
                    vstd::utf8::encode_utf8(before[i as int]@),
                    vstd::utf8::encode_utf8(before[q - 1]@),
                );
            }
        }
        assert forall|t: Seq<char>| has_text(list@, t) <==> has_text(before, t) || t
            == text@ by {
            if has_text(before, t) {
                let k = choose|k: int| 0 <= k < before.len() && #[trigger] before[k]@ == t;
                if k < i {
                    assert(list@[k]@ == t);
                } else {
                    assert(list@[k + 1]@ == t);
                }
            }
        }
    }
}

/// The value of the cell of a site and an employee type: the count of the
/// last row for the two, in thousandths, or zero if there is no such row.
pub open spec fn cell_value(
    rows: Seq<(String, String, i64)>,
    site: Seq<char>,
    employee_type: Seq<char>,
) -> int
    decreases rows.len(),
{
    if rows.len() == 0 {
        0
    } else if rows.last().0@ == site && rows.last().1@ == employee_type {
        spec_to_fixed(rows.last().2 as int)
    } else {
        cell_value(rows.drop_last(), site, employee_type)
    }
}

fn lookup(rows: &Vec<(String, String, i64)>, site: &String, employee_type: &String) -> (value: i32)
    ensures
        value == cell_value(rows@, site@, employee_type@),
{
    let mut i: usize = rows.len();
    assert(rows@.take(i as int) =~= rows@);
    while i > 0
        invariant
            i <= rows@.len(),
            cell_value(rows@, site@, employee_type@) == cell_value(
                rows@.take(i as int),
                site@,
                employee_type@,
            ),
        decreases i,
    {
        i -= 1;
        assert(rows@.take(i + 1).drop_last() =~= rows@.take(i as int));
        if rows[i].0 == *site && rows[i].1 == *employee_type {
            return to_fixed(rows[i].2);
        }
    }
    0
}

/// Whether some row names the site.
pub open spec fn names_site(rows: Seq<(String, String, i64)>, site: Seq<char>) -> bool {
    exists|r: int| 0 <= r < rows.len() && (#[trigger] rows[r]).0@ == site
}

/// Whether some row names the employee type.
pub open spec fn names_type(rows: Seq<(String, String, i64)>, employee_type: Seq<char>) -> bool {
    exists|r: int| 0 <= r < rows.len() && (#[trigger] rows[r]).1@ == employee_type
}

/// The grid of the rows of site, employee type and count: the sites as
/// columns and the employee types as rows, each in ascending order and
/// each named once, and in every cell the count for its site and type.
pub fn grid_of(rows: &Vec<(String, String, i64)>) -> (grid: (
    Vec<String>,
    Vec<String>,
    Vec<Vec<i32>>,
))
    ensures
        ascending(grid.0@),
        ascending(grid.1@),
        forall|t: Seq<char>| has_text(grid.0@, t) <==> names_site(rows@, t),
        forall|t: Seq<char>| has_text(grid.1@, t) <==> names_type(rows@, t),
        grid.2@.len() == grid.1@.len(),
        forall|y: int, x: int|
            0 <= y < grid.1@.len() && 0 <= x < grid.0@.len() ==> (#[trigger] grid.2@[y])@.len()
                == grid.0@.len() && #[trigger] grid.2@[y]@[x] == cell_value(
                rows@,
                grid.0@[x]@,
                grid.1@[y]@,
            ),
        forall|y: int| 0 <= y < grid.2@.len() ==> (#[trigger] grid.2@[y])@.len() == grid.0@.len(),
{
    let mut sites: Vec<String> = Vec::new();
    let mut types: Vec<String> = Vec::new();
    let mut r: usize = 0;
    while r < rows.len()
        invariant
            r <= rows@.len(),
            ascending(sites@),
            ascending(types@),
            forall|t: Seq<char>| has_text(sites@, t) <==> names_site(rows@.take(r as int), t),
            forall|t: Seq<char>| has_text(types@, t) <==> names_type(rows@.take(r as int), t),
        decreases rows.len() - r,
    {
        insert_sorted(&mut sites, rows[r].0.clone());
        insert_sorted(&mut types, rows[r].1.clone());
        assert(rows@.take(r + 1)[r as int] == rows@[r as int]);
        r += 1;
    }
    assert(rows@.take(r as int) =~= rows@);
    let mut values: Vec<Vec<i32>> = Vec::new();
    let mut y: usize = 0;
    while y < types.len()
        invariant
            y <= types@.len(),
            values@.len() == y,
            forall|v: int, x: int|
                0 <= v < y && 0 <= x < sites@.len() ==> (#[trigger] values@[v])@.len()
                    == sites@.len() && #[trigger] values@[v]@[x] == cell_value(
                    rows@,
                    sites@[x]@,
                    types@[v]@,
                ),
            forall|v: int| 0 <= v < y ==> (#[trigger] values@[v])@.len() == sites@.len(),
        decreases types.len() - y,
    {
        let mut row: Vec<i32> = Vec::new();
        let mut x: usize = 0;
        while x < sites.len()
            invariant
                x <= sites@.len(),
                y < types@.len(),
                row@.len() == x,
                forall|u: int|
                    0 <= u < x ==> #[trigger] row@[u] == cell_value(
                        rows@,
                        sites@[u]@,
                        types@[y as int]@,
                    ),
            decreases sites.len() - x,
        {
            row.push(lookup(rows, &sites[x], &types[y]));
            x += 1;
        }
        values.push(row);
        y += 1;
    }
    (sites, types, values)
}

} // verus!
