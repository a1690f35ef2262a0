//! Shape reconciliation for list-valued responses.
//!
//! The same logical resource may arrive as a paginated envelope
//! `{page, total, limit, <key>: [...]}`, as a bare object `{<key>: [...]}`,
//! or as a top-level array.  The normalizer probes in that priority order
//! and extracts the item list from whichever shape matches; an input
//! matching none of the three is an error for the caller to surface.

use vstd::prelude::*;

verus! {

use crate::jsonval::{lookup_spec, trees_of, JsonTree, JsonValue};

/// The item list of a response document under the given items key, probing
/// the paginated envelope, then the bare keyed object, then the top-level
/// array; `None` when no shape matches or the keyed value is not an array.
pub open spec fn extract_items_spec(t: JsonTree, key: Seq<char>) -> Option<Seq<JsonTree>> {
    match t.get(key) {
        Some(JsonTree::Arr(items)) => Some(items),
        Some(_) => None,
        None => match t {
            JsonTree::Arr(items) => Some(items),
            _ => None,
        },
    }
}

/// Extract the item list from whichever of the three response shapes the
/// document matches; `None` exactly when none matches.
pub fn extract_items<'a>(v: &'a JsonValue, key: &str) -> (r: Option<&'a Vec<JsonValue>>)
    ensures
        match r {
            Some(items) => extract_items_spec(v@, key@) == Some(trees_of(items@)),
            None => extract_items_spec(v@, key@) is None,
        },
{
    match v.get(key) {
        Some(JsonValue::Arr(items)) => Some(items),
        Some(_) => None,
        None => match v {
            JsonValue::Arr(items) => Some(items),
            _ => None,
        },
    }
}

/// All three accepted response shapes yield the identical item list for the
/// same item content: the paginated envelope, the bare keyed object, and the
/// top-level array.
pub proof fn lemma_three_shapes_agree(
    items: Seq<JsonTree>,
    key: Seq<char>,
    page: JsonTree,
    total: JsonTree,
    limit: JsonTree,
)
    requires
        key != "page"@,
        key != "total"@,
        key != "limit"@,
    ensures
        extract_items_spec(
            JsonTree::Obj(
                seq![
                    ("page"@, page),
                    ("total"@, total),
                    ("limit"@, limit),
                    (key, JsonTree::Arr(items)),
                ],
            ),
            key,
        ) == Some(items),
        extract_items_spec(JsonTree::Obj(seq![(key, JsonTree::Arr(items))]), key) == Some(items),
        extract_items_spec(JsonTree::Arr(items), key) == Some(items),
{
    let envelope = seq![
        ("page"@, page),
        ("total"@, total),
        ("limit"@, limit),
        (key, JsonTree::Arr(items)),
    ];
    assert(envelope.drop_first() =~= seq![
        ("total"@, total),
        ("limit"@, limit),
        (key, JsonTree::Arr(items)),
    ]);
    assert(envelope.drop_first().drop_first() =~= seq![
        ("limit"@, limit),
        (key, JsonTree::Arr(items)),
    ]);
    assert(envelope.drop_first().drop_first().drop_first() =~= seq![(key, JsonTree::Arr(items))]);
    let tail1 = envelope.drop_first();
    let tail2 = tail1.drop_first();
    let tail3 = tail2.drop_first();
    assert(lookup_spec(envelope, key) == lookup_spec(tail1, key));
    assert(lookup_spec(tail1, key) == lookup_spec(tail2, key));
    assert(lookup_spec(tail2, key) == lookup_spec(tail3, key));
    assert(lookup_spec(tail3, key) == Some(JsonTree::Arr(items)));
    assert(lookup_spec(seq![(key, JsonTree::Arr(items))], key) == Some(JsonTree::Arr(items)));
}

/// The head of a text, bounded: the text itself when it is short enough,
/// else its first `max` characters with a trailing ellipsis.
pub open spec fn preview_spec(s: Seq<char>, max: int) -> Seq<char> {
    if s.len() <= max {
        s
    } else {
        s.subrange(0, max) + "..."@
    }
}

/// Bound a body for an error message: at most `max` characters of it, with
/// an ellipsis marking the cut.
pub fn body_preview(s: &str, max: usize) -> (r: String)
    ensures
        r@ == preview_spec(s@, max as int),
{
    let n = s.unicode_len();
    if n <= max {
        s.to_owned()
    } else {
        let head = s.substring_char(0, max);
        head.to_owned().concat("...")
    }
}

} // verus!
