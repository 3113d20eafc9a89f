//! Reading JSON arrays of integers with `serde_json`.
use vstd::prelude::*;
use crate::text::integer_text;

verus! {

/// `k` spaces.
pub open spec fn spaces(k: nat) -> Seq<char> {
    Seq::new(k, |i: int| ' ')
}

/// The parts of `items`, separated by a comma and `gap` spaces.
pub open spec fn joined(items: Seq<Seq<char>>, gap: nat) -> Seq<char>
    decreases items.len(),
{
    if items.len() == 0 {
        Seq::empty()
    } else if items.len() == 1 {
        items[0]
    } else {
        joined(items.drop_last(), gap) + seq![','] + spaces(gap) + items.last()
    }
}

/// A JSON array of the integers `v`, in order, written in decimal and
/// separated by a comma and `gap` spaces.
pub open spec fn int_list_text(v: Seq<i32>, gap: nat) -> Seq<char> {
    seq!['['] + joined(v.map_values(|n: i32| integer_text(n as int)), gap) + seq![']']
}

/// A JSON array of the rows `rows`, each written as by `int_list_text`, the
/// rows separated by a comma and `gap` spaces.
pub open spec fn int_grid_text(rows: Seq<Seq<i32>>, gap: nat) -> Seq<char> {
    seq!['['] + joined(rows.map_values(|row: Seq<i32>| int_list_text(row, gap)), gap) + seq![']']
}

/// What `serde_json::from_str::<Vec<i32>>` makes of a text: the list it
/// reads, or `None` where it reports an error.
pub uninterp spec fn json_i32_list(text: Seq<char>) -> Option<Seq<i32>>;

/// What `serde_json::from_str::<Vec<Vec<i32>>>` makes of a text: the rows it
/// reads, or `None` where it reports an error.
pub uninterp spec fn json_i32_grid(text: Seq<char>) -> Option<Seq<Seq<i32>>>;

/// Calls `serde_json::from_str::<Vec<i32>>` on `text`. Trusted to give
/// `json_i32_list(text@)`, which depends on the text alone, and to read a JSON
/// array of decimal integers in `i32`'s range (commas followed by spaces
/// between them) as exactly those integers in order. What else it accepts is
/// left to serde_json and not stated here.
#[verifier::external_body]
pub(crate) fn read_i32_list(text: &str) -> (r: Option<Vec<i32>>)
    ensures
        match r {
            Some(v) => json_i32_list(text@) == Some(v@),
            None => json_i32_list(text@) is None,
        },
        forall|v: Seq<i32>, gap: nat|
            text@ == #[trigger] int_list_text(v, gap) ==> (r is Some && r->Some_0@ == v),
{
    serde_json::from_str::<Vec<i32>>(text).ok()
}

/// Calls `serde_json::from_str::<Vec<Vec<i32>>>` on `text`. Trusted to give
/// `json_i32_grid(text@)`, which depends on the text alone, and to read a JSON
/// array of arrays of decimal integers in `i32`'s range as exactly those rows
/// in order. What else it accepts is left to serde_json and not stated here.
#[verifier::external_body]
pub(crate) fn read_i32_grid(text: &str) -> (r: Option<Vec<Vec<i32>>>)
    ensures
        match r {
            Some(v) => json_i32_grid(text@) == Some(v.deep_view()),
            None => json_i32_grid(text@) is None,
        },
        forall|rows: Seq<Seq<i32>>, gap: nat|
            text@ == #[trigger] int_grid_text(rows, gap) ==> (r is Some && r->Some_0.deep_view()
                == rows),
{
    serde_json::from_str::<Vec<Vec<i32>>>(text).ok()
}

} // verus!
