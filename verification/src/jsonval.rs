//! A JSON document modelled as a tree of plain values.
//!
//! The remote service answers with JSON text.  Parsing that text is the
//! parser crate's work (behind a trusted boundary in `parse`); everything
//! the library then reads off the document — object fields, array items,
//! numbers, strings — happens on this tree, with proofs.

use vstd::prelude::*;

verus! {

/// Spec-level shape of a JSON document.
pub ghost enum JsonTree {
    Null,
    Bool(bool),
    /// A JSON number; `Some` when it is representable as a signed 64-bit
    /// integer, `None` otherwise (the library never reads such a number).
    Num(Option<i64>),
    Str(Seq<char>),
    Arr(Seq<JsonTree>),
    Obj(Seq<(Seq<char>, JsonTree)>),
}

/// A JSON document as the library holds it.
#[derive(Debug, PartialEq)]
pub enum JsonValue {
    Null,
    Bool(bool),
    /// `Some` when the number is representable as a signed 64-bit integer.
    Num(Option<i64>),
    Str(String),
    Arr(Vec<JsonValue>),
    Obj(Vec<(String, JsonValue)>),
}

broadcast use vstd::seq::axiom_seq_index_decreases, vstd::std_specs::vec::axiom_vec_decreases_to_view;

/// The tree a document stands for.
pub open spec fn tree_of(v: JsonValue) -> JsonTree
    decreases v,
{
    match v {
        JsonValue::Null => JsonTree::Null,
        JsonValue::Bool(b) => JsonTree::Bool(b),
        JsonValue::Num(n) => JsonTree::Num(n),
        JsonValue::Str(s) => JsonTree::Str(s@),
        JsonValue::Arr(items) => JsonTree::Arr(trees_of(items@)),
        JsonValue::Obj(entries) => JsonTree::Obj(entry_trees_of(entries@)),
    }
}

/// The trees the items of an array stand for, in order.
pub open spec fn trees_of(items: Seq<JsonValue>) -> Seq<JsonTree>
    decreases items,
{
    if items.len() == 0 {
        Seq::empty()
    } else {
        seq![tree_of(items[0])] + trees_of(items.drop_first())
    }
}

/// The key/tree pairs the entries of an object stand for, in order.
pub open spec fn entry_trees_of(entries: Seq<(String, JsonValue)>) -> Seq<(Seq<char>, JsonTree)>
    decreases entries,
{
    if entries.len() == 0 {
        Seq::empty()
    } else {
        seq![(entries[0].0@, tree_of(entries[0].1))] + entry_trees_of(entries.drop_first())
    }
}

impl View for JsonValue {
    type V = JsonTree;

    open spec fn view(&self) -> JsonTree {
        tree_of(*self)
    }
}

/// Element-wise reading of `trees_of`.
pub proof fn lemma_trees_of(items: Seq<JsonValue>)
    ensures
        trees_of(items).len() == items.len(),
        forall|i: int| 0 <= i < items.len() ==> trees_of(items)[i] == tree_of(#[trigger] items[i]),
    decreases items,
{
    if items.len() > 0 {
        lemma_trees_of(items.drop_first());
        assert forall|i: int| 0 <= i < items.len() implies trees_of(items)[i] == tree_of(
            #[trigger] items[i],
        ) by {
            if i > 0 {
                assert(items.drop_first()[i - 1] == items[i]);
            }
        }
    }
}

/// Element-wise reading of `entry_trees_of`.
pub proof fn lemma_entry_trees_of(entries: Seq<(String, JsonValue)>)
    ensures
        entry_trees_of(entries).len() == entries.len(),
        forall|i: int|
            0 <= i < entries.len() ==> entry_trees_of(entries)[i] == (
            #[trigger] entries[i].0@,
            tree_of(entries[i].1),
            ),
    decreases entries,
{
    if entries.len() > 0 {
        lemma_entry_trees_of(entries.drop_first());
        assert forall|i: int| 0 <= i < entries.len() implies entry_trees_of(entries)[i] == (
            #[trigger] entries[i].0@,
            tree_of(entries[i].1),
        ) by {
            if i > 0 {
                assert(entries.drop_first()[i - 1] == entries[i]);
            }
        }
    }
}

/// The value under the first entry with the given key, if any.
pub open spec fn lookup_spec(entries: Seq<(Seq<char>, JsonTree)>, key: Seq<char>) -> Option<
    JsonTree,
>
    decreases entries.len(),
{
    if entries.len() == 0 {
        None
    } else if entries[0].0 == key {
        Some(entries[0].1)
    } else {
        lookup_spec(entries.drop_first(), key)
    }
}

impl JsonTree {
    /// Field access: the value under `key` when this is an object holding it.
    pub open spec fn get(self, key: Seq<char>) -> Option<JsonTree> {
        match self {
            JsonTree::Obj(entries) => lookup_spec(entries, key),
            _ => None,
        }
    }
}

impl JsonValue {
    /// Look a field up in an object; `None` on a missing field or any
    /// non-object document.
    pub fn get<'a>(&'a self, key: &str) -> (r: Option<&'a JsonValue>)
        ensures
            match r {
                Some(v) => self@.get(key@) == Some(v@),
                None => self@.get(key@) is None,
            },
    {
        match self {
            JsonValue::Obj(entries) => {
                let key_owned = key.to_owned();
                let ghost tree_entries = entry_trees_of(entries@);
                proof {
                    lemma_entry_trees_of(entries@);
                    assert(tree_entries.skip(0) =~= tree_entries);
                }
                let mut i: usize = 0;
                while i < entries.len()
                    invariant
                        i <= entries@.len(),
                        key_owned@ == key@,
                        tree_entries == entry_trees_of(entries@),
                        tree_entries.len() == entries@.len(),
                        forall|j: int|
                            0 <= j < entries@.len() ==> tree_entries[j] == (
                            #[trigger] entries@[j].0@,
                            tree_of(entries@[j].1),
                            ),
                        self@ == JsonTree::Obj(tree_entries),
                        lookup_spec(tree_entries.skip(i as int), key@) == lookup_spec(
                            tree_entries,
                            key@,
                        ),
                    decreases entries@.len() - i,
                {
                    if entries[i].0 == key_owned {
                        proof {
                            lemma_lookup_head(tree_entries, key@, i as int);
                        }
                        return Some(&entries[i].1);
                    }
                    proof {
                        lemma_lookup_tail(tree_entries, key@, i as int);
                    }
                    i = i + 1;
                }
                proof {
                    assert(tree_entries.skip(i as int) =~= Seq::<(Seq<char>, JsonTree)>::empty());
                }
                None
            },
            _ => None,
        }
    }
}

proof fn lemma_lookup_head(entries: Seq<(Seq<char>, JsonTree)>, key: Seq<char>, i: int)
    requires
        0 <= i < entries.len(),
        entries[i].0 == key,
        lookup_spec(entries.skip(i), key) == lookup_spec(entries, key),
    ensures
        lookup_spec(entries, key) == Some(entries[i].1),
{
    assert(entries.skip(i)[0] == entries[i]);
}

proof fn lemma_lookup_tail(entries: Seq<(Seq<char>, JsonTree)>, key: Seq<char>, i: int)
    requires
        0 <= i < entries.len(),
        entries[i].0 != key,
        lookup_spec(entries.skip(i), key) == lookup_spec(entries, key),
    ensures
        lookup_spec(entries.skip(i + 1), key) == lookup_spec(entries, key),
{
    assert(entries.skip(i)[0] == entries[i]);
    assert(entries.skip(i).drop_first() =~= entries.skip(i + 1));
}

impl JsonTree {
    /// The text of a string field, `None` when the field is missing or not
    /// a string.
    pub open spec fn str_field(self, key: Seq<char>) -> Option<Seq<char>> {
        match self.get(key) {
            Some(JsonTree::Str(s)) => Some(s),
            _ => None,
        }
    }

    /// The value of an integer field that fits in 32 bits, `None` otherwise.
    pub open spec fn i32_field(self, key: Seq<char>) -> Option<i32> {
        match self.get(key) {
            Some(JsonTree::Num(Some(n))) => if i32::MIN <= n <= i32::MAX {
                Some(n as i32)
            } else {
                None
            },
            _ => None,
        }
    }

    /// The value of a non-negative integer field that fits in unsigned 64
    /// bits, `None` otherwise.
    pub open spec fn u64_field(self, key: Seq<char>) -> Option<u64> {
        match self.get(key) {
            Some(JsonTree::Num(Some(n))) => if 0 <= n {
                Some(n as u64)
            } else {
                None
            },
            _ => None,
        }
    }

    /// The value of a boolean field, `None` when missing or not a boolean.
    pub open spec fn bool_field(self, key: Seq<char>) -> Option<bool> {
        match self.get(key) {
            Some(JsonTree::Bool(b)) => Some(b),
            _ => None,
        }
    }
}

impl JsonValue {
    /// The text of a string field; `None` when the field is missing or not
    /// a string.
    pub fn get_str(&self, key: &str) -> (r: Option<String>)
        ensures
            match r {
                Some(s) => self@.str_field(key@) == Some(s@),
                None => self@.str_field(key@) is None,
            },
    {
        match self.get(key) {
            Some(JsonValue::Str(s)) => Some(s.clone()),
            _ => None,
        }
    }

    /// The value of an integer field when it fits in 32 bits; `None` when the
    /// field is missing, not an integer, or out of range.
    pub fn get_i32(&self, key: &str) -> (r: Option<i32>)
        ensures
            r == self@.i32_field(key@),
    {
        match self.get(key) {
            Some(JsonValue::Num(Some(n))) => {
                let n = *n;
                if i32::MIN as i64 <= n && n <= i32::MAX as i64 {
                    Some(n as i32)
                } else {
                    None
                }
            },
            _ => None,
        }
    }

    /// The value of a non-negative 64-bit integer field; `None` when the
    /// field is missing, not an integer, or negative.
    pub fn get_u64(&self, key: &str) -> (r: Option<u64>)
        ensures
            r == self@.u64_field(key@),
    {
        match self.get(key) {
            Some(JsonValue::Num(Some(n))) => {
                let n = *n;
                if n >= 0 {
                    Some(n as u64)
                } else {
                    None
                }
            },
            _ => None,
        }
    }

    /// The value of a boolean field; `None` when missing or not a boolean.
    pub fn get_bool(&self, key: &str) -> (r: Option<bool>)
        ensures
            r == self@.bool_field(key@),
    {
        match self.get(key) {
            Some(JsonValue::Bool(b)) => Some(*b),
            _ => None,
        }
    }
}

/// An outside JSON document handle; opaque to the library, converted to
/// [`JsonValue`] right after parsing.
#[verifier::external_type_specification]
#[verifier::external_body]
pub struct ExValue(serde_json::Value);

/// The tree the parser yields for a text, or `None` when the text is not
/// well-formed JSON.  Parsing is a function of the text alone.
pub uninterp spec fn json_tree_of_text(text: Seq<char>) -> Option<JsonTree>;

/// The tree a parsed outside document stands for.
pub uninterp spec fn tree_of_value(v: serde_json::Value) -> JsonTree;

/// Relies on `serde_json::from_str::<Value>`: parses well-formed JSON text
/// into a document and rejects anything else.
#[verifier::external_body]
fn json_from_str(text: &str) -> (r: Option<serde_json::Value>)
    ensures
        match json_tree_of_text(text@) {
            Some(t) => (r matches Some(v) && tree_of_value(v) == t),
            None => r is None,
        },
{
    serde_json::from_str::<serde_json::Value>(text).ok()
}

/// Relies on the variants of `serde_json::Value`: each maps to the matching
/// variant of the library's tree, recursively; a number maps to its `as_i64`
/// reading.
#[verifier::external_body]
fn value_to_json(v: serde_json::Value) -> (r: JsonValue)
    ensures
        r@ == tree_of_value(v),
{
    match v {
        serde_json::Value::Null => JsonValue::Null,
        serde_json::Value::Bool(b) => JsonValue::Bool(b),
        serde_json::Value::Number(n) => JsonValue::Num(n.as_i64()),
        serde_json::Value::String(s) => JsonValue::Str(s),
        serde_json::Value::Array(a) => JsonValue::Arr(a.into_iter().map(value_to_json).collect()),
        serde_json::Value::Object(o) => JsonValue::Obj(
            o.into_iter().map(|e| (e.0, value_to_json(e.1))).collect(),
        ),
    }
}

/// Parse JSON text into the library's document tree; `None` exactly on text
/// that is not well-formed JSON.
pub fn parse_json(text: &str) -> (r: Option<JsonValue>)
    ensures
        match json_tree_of_text(text@) {
            Some(t) => (r matches Some(v) && v@ == t),
            None => r is None,
        },
{
    match json_from_str(text) {
        Some(v) => Some(value_to_json(v)),
        None => None,
    }
}

} // verus!
