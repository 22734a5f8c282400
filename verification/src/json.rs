//! The library's own JSON tree, the model the catalog contracts speak
//! of, and the trusted boundary to serde_json that produces it: parsing
//! stays with serde_json, and the parsed tree is rebuilt as this type at
//! the boundary, so every walk over it is verified.

use vstd::prelude::*;
use crate::text::str_eq;

verus! {

broadcast use vstd::std_specs::vec::group_vec_axioms;

/// A parsed JSON document. A number is kept as what the catalog can
/// read of it: its value where it is a non-negative integer that fits
/// 64 bits, and its decimal text.
pub enum JsonValue {
    Null,
    Bool(bool),
    Num { integer: Option<u64>, text: String },
    Str(String),
    Arr(Vec<JsonValue>),
    Obj(Vec<(String, JsonValue)>),
}

/// Mathematical model of a parsed JSON document.
pub ghost enum JsonView {
    Null,
    Bool(bool),
    Num { integer: Option<u64>, text: Seq<char> },
    Str(Seq<char>),
    Arr(Seq<JsonView>),
    Obj(Seq<(Seq<char>, JsonView)>),
}

/// The model of one tree.
pub open spec fn json_view(v: JsonValue) -> JsonView
    decreases v,
{
    match v {
        JsonValue::Null => JsonView::Null,
        JsonValue::Bool(b) => JsonView::Bool(b),
        JsonValue::Num { integer, text } => JsonView::Num { integer, text: text@ },
        JsonValue::Str(s) => JsonView::Str(s@),
        JsonValue::Arr(items) => JsonView::Arr(elems_view(items@)),
        JsonValue::Obj(entries) => JsonView::Obj(entries_view(entries@)),
    }
}

/// The models of an array's elements, in order.
pub open spec fn elems_view(s: Seq<JsonValue>) -> Seq<JsonView>
    decreases s,
{
    if s.len() == 0 {
        Seq::empty()
    } else {
        elems_view(s.drop_last()).push(json_view(s.last()))
    }
}

/// The models of an object's entries, in order.
pub open spec fn entries_view(s: Seq<(String, JsonValue)>) -> Seq<(Seq<char>, JsonView)>
    decreases s,
{
    if s.len() == 0 {
        Seq::empty()
    } else {
        entries_view(s.drop_last()).push((s.last().0@, json_view(s.last().1)))
    }
}

impl View for JsonValue {
    type V = JsonView;

    open spec fn view(&self) -> JsonView {
        json_view(*self)
    }
}

pub proof fn lemma_elems_view_len(s: Seq<JsonValue>)
    ensures
        elems_view(s).len() == s.len(),
    decreases s.len(),
{
    if s.len() > 0 {
        lemma_elems_view_len(s.drop_last());
    }
}

pub proof fn lemma_elems_view_index(s: Seq<JsonValue>, i: int)
    requires
        0 <= i < s.len(),
    ensures
        elems_view(s).len() == s.len(),
        elems_view(s)[i] == json_view(s[i]),
    decreases s.len(),
{
    lemma_elems_view_len(s);
    if i < s.len() - 1 {
        lemma_elems_view_index(s.drop_last(), i);
    }
}

pub proof fn lemma_entries_view_len(s: Seq<(String, JsonValue)>)
    ensures
        entries_view(s).len() == s.len(),
    decreases s.len(),
{
    if s.len() > 0 {
        lemma_entries_view_len(s.drop_last());
    }
}

pub proof fn lemma_entries_view_index(s: Seq<(String, JsonValue)>, i: int)
    requires
        0 <= i < s.len(),
    ensures
        entries_view(s).len() == s.len(),
        entries_view(s)[i] == (s[i].0@, json_view(s[i].1)),
    decreases s.len(),
{
    lemma_entries_view_len(s);
    if i < s.len() - 1 {
        lemma_entries_view_index(s.drop_last(), i);
    }
}

/// The value under `key` among an object's entries: the first entry
/// whose key reads as `key`.
pub open spec fn lookup(entries: Seq<(Seq<char>, JsonView)>, key: Seq<char>) -> Option<JsonView>
    decreases entries.len(),
{
    if entries.len() == 0 {
        None
    } else if entries[0].0 == key {
        Some(entries[0].1)
    } else {
        lookup(entries.skip(1), key)
    }
}

impl JsonView {
    /// The member under `key`, where the value is an object holding it.
    pub open spec fn get(self, key: Seq<char>) -> Option<JsonView> {
        match self {
            JsonView::Obj(entries) => lookup(entries, key),
            _ => None,
        }
    }

    /// The text, where the value is a string.
    pub open spec fn as_text(self) -> Option<Seq<char>> {
        match self {
            JsonView::Str(s) => Some(s),
            _ => None,
        }
    }

    /// The elements, where the value is an array.
    pub open spec fn elements(self) -> Option<Seq<JsonView>> {
        match self {
            JsonView::Arr(items) => Some(items),
            _ => None,
        }
    }

    /// The 64-bit integer value, where the value is a number with one.
    pub open spec fn integer_value(self) -> Option<u64> {
        match self {
            JsonView::Num { integer, text: _ } => integer,
            _ => None,
        }
    }

    /// The decimal text, where the value is a number.
    pub open spec fn decimal_text(self) -> Option<Seq<char>> {
        match self {
            JsonView::Num { integer: _, text } => Some(text),
            _ => None,
        }
    }
}

impl JsonValue {
    fn get_from<'a>(entries: &'a Vec<(String, JsonValue)>, i: usize, key: &str) -> (r: Option<
        &'a JsonValue,
    >)
        requires
            i <= entries@.len(),
        ensures
            r is Some <==> lookup(entries_view(entries@).skip(i as int), key@) is Some,
            r matches Some(x) ==> lookup(entries_view(entries@).skip(i as int), key@) == Some(x@),
        decreases entries@.len() - i,
    {
        proof {
            lemma_entries_view_len(entries@);
        }
        if i == entries.len() {
            None
        } else {
            proof {
                lemma_entries_view_index(entries@, i as int);
                assert(entries_view(entries@).skip(i as int)[0] == (
                    entries@[i as int].0@,
                    json_view(entries@[i as int].1),
                ));
            }
            let e = &entries[i];
            if str_eq(e.0.as_str(), key) {
                Some(&e.1)
            } else {
                let r = Self::get_from(entries, i + 1, key);
                proof {
                    assert(entries_view(entries@).skip(i as int).skip(1) =~= entries_view(
                        entries@,
                    ).skip(i + 1));
                }
                r
            }
        }
    }

    /// The member under `key`, if this value is an object with it.
    pub fn get<'a>(&'a self, key: &str) -> (r: Option<&'a JsonValue>)
        ensures
            r is Some <==> self@.get(key@) is Some,
            r matches Some(x) ==> self@.get(key@) == Some(x@),
    {
        match self {
            JsonValue::Obj(entries) => {
                let r = Self::get_from(entries, 0, key);
                proof {
                    assert(entries_view(entries@).skip(0) =~= entries_view(entries@));
                }
                r
            },
            _ => None,
        }
    }

    /// The elements, if this value is an array.
    pub fn as_array(&self) -> (r: Option<&Vec<JsonValue>>)
        ensures
            r is Some <==> self@.elements() is Some,
            r matches Some(items) ==> self@.elements() == Some(elems_view(items@)),
    {
        match self {
            JsonValue::Arr(items) => Some(items),
            _ => None,
        }
    }

    /// The text, if this value is a string.
    pub fn as_str(&self) -> (r: Option<&str>)
        ensures
            r is Some <==> self@.as_text() is Some,
            r matches Some(s) ==> self@.as_text() == Some(s@),
    {
        match self {
            JsonValue::Str(s) => Some(s.as_str()),
            _ => None,
        }
    }

    /// The integer value, if this value is a number with one.
    pub fn as_u64(&self) -> (r: Option<u64>)
        ensures
            r == self@.integer_value(),
    {
        match self {
            JsonValue::Num { integer, text: _ } => *integer,
            _ => None,
        }
    }

    /// The decimal text, if this value is a number.
    pub fn number_text(&self) -> (r: Option<String>)
        ensures
            r is Some <==> self@.decimal_text() is Some,
            r matches Some(t) ==> self@.decimal_text() == Some(t@),
    {
        match self {
            JsonValue::Num { integer: _, text } => Some(text.clone()),
            _ => None,
        }
    }
}

#[verifier::external_type_specification]
#[verifier::external_body]
pub struct ExJsonValue(serde_json::Value);

#[verifier::external_type_specification]
#[verifier::external_body]
pub struct ExJsonError(serde_json::Error);

/// What parsing a text as JSON yields: `None` where the text is not
/// well-formed JSON, else the parsed tree. A function of the text
/// alone.
pub uninterp spec fn json_doc_spec(s: Seq<char>) -> Option<JsonView>;

/// Relies on serde_json::from_str: Ok exactly on well-formed JSON; the
/// parsed tree — rebuilt as the library's own by `value_to_tree` — is a
/// function of the text alone.
#[verifier::external_body]
pub(crate) fn json_parse(s: &str) -> (r: Result<JsonValue, serde_json::Error>)
    ensures
        r is Ok <==> json_doc_spec(s@) is Some,
        r matches Ok(v) ==> Some(v@) == json_doc_spec(s@),
{
    serde_json::from_str::<serde_json::Value>(s).map(value_to_tree)
}

/// Relies on serde_json::Value's variants: rebuilds the parsed tree as
/// the library's own, one variant arm each; a number is kept as its
/// optional integer value (Number::as_u64) and its decimal text
/// (Number's Display impl).
#[verifier::external_body]
fn value_to_tree(v: serde_json::Value) -> JsonValue {
    match v {
        serde_json::Value::Null => JsonValue::Null,
        serde_json::Value::Bool(b) => JsonValue::Bool(b),
        serde_json::Value::Number(n) => JsonValue::Num { integer: n.as_u64(), text: n.to_string() },
        serde_json::Value::String(s) => JsonValue::Str(s),
        serde_json::Value::Array(a) => JsonValue::Arr(a.into_iter().map(value_to_tree).collect()),
        serde_json::Value::Object(o) => JsonValue::Obj(
            o.into_iter().map(|(k, x)| (k, value_to_tree(x))).collect(),
        ),
    }
}

/// Relies on serde_json::Error's Display impl: a one-line description
/// of what failed to parse, and where.
#[verifier::external_body]
pub(crate) fn json_error_message(e: &serde_json::Error) -> String {
    format!("{}", e)
}

} // verus!
