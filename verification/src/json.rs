//! JSON documents as the exchange's protocol uses them, read and written by
//! `serde_json`.
//!
//! Every number of the protocol is an unsigned integer: amounts and prices
//! travel as text. A document that holds any other number is not read.

use crate::text::same_text;
use vstd::prelude::*;
use vstd::string::*;

verus! {

/// A JSON document whose numbers are unsigned 64-bit integers. The fields of
/// an object stand in the order in which they were put; where a key occurs
/// twice, the later field is the one that counts.
#[derive(Debug, PartialEq, Eq)]
pub enum JsonValue {
    Null,
    Bool(bool),
    Number(u64),
    String(String),
    Array(Vec<JsonValue>),
    Object(Vec<(String, JsonValue)>),
}

/// The mathematical model of a [`JsonValue`].
pub enum JsonSpec {
    Null,
    Bool(bool),
    Number(u64),
    String(Seq<char>),
    Array(Seq<JsonSpec>),
    Object(Seq<(Seq<char>, JsonSpec)>),
}

/// The model of a document.
pub open spec fn json_model(value: JsonValue) -> JsonSpec
    decreases value,
{
    match value {
        JsonValue::Null => JsonSpec::Null,
        JsonValue::Bool(b) => JsonSpec::Bool(b),
        JsonValue::Number(n) => JsonSpec::Number(n),
        JsonValue::String(s) => JsonSpec::String(s@),
        JsonValue::Array(items) => JsonSpec::Array(
            Seq::new(
                items@.len(),
                |i: int|
                    if 0 <= i < items@.len() {
                        json_model(items@[i])
                    } else {
                        JsonSpec::Null
                    },
            ),
        ),
        JsonValue::Object(fields) => JsonSpec::Object(
            Seq::new(
                fields@.len(),
                |i: int|
                    if 0 <= i < fields@.len() {
                        (fields@[i].0@, json_model(fields@[i].1))
                    } else {
                        (Seq::empty(), JsonSpec::Null)
                    },
            ),
        ),
    }
}

impl DeepView for JsonValue {
    type V = JsonSpec;

    open spec fn deep_view(&self) -> JsonSpec {
        json_model(*self)
    }
}

impl Clone for JsonValue {
    fn clone(&self) -> (r: JsonValue)
        ensures
            r.deep_view() == self.deep_view(),
    {
        self.duplicate()
    }
}

/// The value of the last field with the given key.
pub open spec fn lookup(fields: Seq<(Seq<char>, JsonSpec)>, key: Seq<char>) -> Option<JsonSpec>
    decreases fields.len(),
{
    if fields.len() == 0 {
        None
    } else if fields.last().0 == key {
        Some(fields.last().1)
    } else {
        lookup(fields.drop_last(), key)
    }
}

/// Whether some field has the given key.
pub open spec fn has_key(fields: Seq<(Seq<char>, JsonSpec)>, key: Seq<char>) -> bool {
    exists|i: int| 0 <= i < fields.len() && (#[trigger] fields[i]).0 == key
}

/// A key is looked up with success exactly when a field has it.
pub proof fn lemma_lookup_has_key(fields: Seq<(Seq<char>, JsonSpec)>, key: Seq<char>)
    ensures
        lookup(fields, key) is Some <==> has_key(fields, key),
    decreases fields.len(),
{
    if fields.len() > 0 {
        if fields.last().0 == key {
            assert(fields[fields.len() - 1].0 == key);
        } else {
            lemma_lookup_has_key(fields.drop_last(), key);
            if has_key(fields, key) {
                let i = choose|i: int| 0 <= i < fields.len() && (#[trigger] fields[i]).0 == key;
                assert(fields.drop_last()[i].0 == key);
            }
            if has_key(fields.drop_last(), key) {
                let i = choose|i: int|
                    0 <= i < fields.drop_last().len() && (#[trigger] fields.drop_last()[i]).0
                        == key;
                assert(fields[i].0 == key);
            }
        }
    }
}

/// A field put last is the one that is found under its key, and it hides no
/// other key.
pub proof fn lemma_lookup_push(
    fields: Seq<(Seq<char>, JsonSpec)>,
    key: Seq<char>,
    value: JsonSpec,
    other: Seq<char>,
)
    ensures
        lookup(fields.push((key, value)), key) == Some(value),
        other != key ==> lookup(fields.push((key, value)), other) == lookup(fields, other),
{
    assert(fields.push((key, value)).drop_last() =~= fields);
}

/// A field whose key no later field has is the one that is found under its
/// key.
pub proof fn lemma_lookup_unique(fields: Seq<(Seq<char>, JsonSpec)>, i: int)
    requires
        0 <= i < fields.len(),
        forall|j: int| i < j < fields.len() ==> (#[trigger] fields[j]).0 != fields[i].0,
    ensures
        lookup(fields, fields[i].0) == Some(fields[i].1),
    decreases fields.len(),
{
    if i < fields.len() - 1 {
        assert forall|j: int| i < j < fields.drop_last().len() implies (
        #[trigger] fields.drop_last()[j]).0 != fields.drop_last()[i].0 by {
            assert(fields[j].0 != fields[i].0);
        }
        lemma_lookup_unique(fields.drop_last(), i);
    }
}

impl JsonSpec {
    /// The value under a key of an object.
    pub open spec fn member(self, key: Seq<char>) -> Option<JsonSpec> {
        match self {
            JsonSpec::Object(fields) => lookup(fields, key),
            _ => None,
        }
    }

    /// The text of a string.
    pub open spec fn text(self) -> Option<Seq<char>> {
        match self {
            JsonSpec::String(s) => Some(s),
            _ => None,
        }
    }

    /// The number of a number.
    pub open spec fn number(self) -> Option<u64> {
        match self {
            JsonSpec::Number(n) => Some(n),
            _ => None,
        }
    }

    /// The items of an array.
    pub open spec fn items(self) -> Option<Seq<JsonSpec>> {
        match self {
            JsonSpec::Array(items) => Some(items),
            _ => None,
        }
    }
}

impl JsonValue {
    /// The value under a key, where `self` is an object that has the key.
    pub fn get(&self, key: &str) -> (r: Option<&JsonValue>)
        ensures
            r.deep_view() == self.deep_view().member(key@),
    {
        match self {
            JsonValue::Object(fields) => {
                let ghost all = self.deep_view()->Object_0;
                let mut i: usize = fields.len();
                assert(all.subrange(0, i as int) =~= all);
                while i > 0
                    invariant
                        i <= fields@.len(),
                        self.deep_view() == JsonSpec::Object(all),
                        all.len() == fields@.len(),
                        forall|j: int|
                            0 <= j < fields@.len() ==> all[j] == (
                                fields@[j].0@,
                                json_model(fields@[j].1),
                            ),
                        lookup(all, key@) == lookup(all.subrange(0, i as int), key@),
                    decreases i,
                {
                    i = i - 1;
                    let field = &fields[i];
                    proof {
                        let before = all.subrange(0, i + 1);
                        assert(before.last() == all[i as int]);
                        assert(before.drop_last() =~= all.subrange(0, i as int));
                    }
                    if same_text(field.0.as_str(), key) {
                        return Some(&field.1);
                    }
                }
                None
            },
            _ => None,
        }
    }

    /// The text, where `self` is a string.
    pub fn as_str(&self) -> (r: Option<&str>)
        ensures
            r.deep_view() == self.deep_view().text(),
    {
        match self {
            JsonValue::String(s) => Some(s.as_str()),
            _ => None,
        }
    }

    /// The number, where `self` is a number.
    pub fn as_u64(&self) -> (r: Option<u64>)
        ensures
            r == self.deep_view().number(),
    {
        match self {
            JsonValue::Number(n) => Some(*n),
            _ => None,
        }
    }

    /// The items, where `self` is an array.
    pub fn as_array(&self) -> (r: Option<&Vec<JsonValue>>)
        ensures
            r.deep_view() == self.deep_view().items(),
    {
        match self {
            JsonValue::Array(items) => {
                Some(items)
            },
            _ => None,
        }
    }

    /// A copy of the document.
    fn duplicate(&self) -> (r: JsonValue)
        ensures
            r.deep_view() == self.deep_view(),
        decreases self,
    {
        match self {
            JsonValue::Null => JsonValue::Null,
            JsonValue::Bool(b) => JsonValue::Bool(*b),
            JsonValue::Number(n) => JsonValue::Number(*n),
            JsonValue::String(s) => JsonValue::String(s.clone()),
            JsonValue::Array(items) => {
                let mut copy: Vec<JsonValue> = Vec::new();
                let mut i: usize = 0;
                while i < items.len()
                    invariant
                        i <= items@.len(),
                        copy@.len() == i,
                        self == JsonValue::Array(*items),
                        forall|j: int| 0 <= j < i ==> json_model(copy@[j]) == json_model(items@[j]),
                    decreases items@.len() - i,
                {
                    assert(decreases_to!(*items => items[i as int]));
                    assert(decreases_to!(*self => self->Array_0));
                    copy.push(items[i].duplicate());
                    i = i + 1;
                }
                assert(json_model(JsonValue::Array(copy)) == json_model(*self)) by {
                    assert(json_model(JsonValue::Array(copy))->Array_0 =~= json_model(
                        *self,
                    )->Array_0);
                }
                JsonValue::Array(copy)
            },
            JsonValue::Object(fields) => {
                let mut copy: Vec<(String, JsonValue)> = Vec::new();
                let mut i: usize = 0;
                while i < fields.len()
                    invariant
                        i <= fields@.len(),
                        copy@.len() == i,
                        self == JsonValue::Object(*fields),
                        forall|j: int|
                            0 <= j < i ==> copy@[j].0@ == fields@[j].0@ && json_model(copy@[j].1)
                                == json_model(fields@[j].1),
                    decreases fields@.len() - i,
                {
                    assert(decreases_to!(*self => self->Object_0));
                    assert(decreases_to!(*fields => fields[i as int]));
                    assert(decreases_to!(fields[i as int] => fields[i as int].1));
                    copy.push((fields[i].0.clone(), fields[i].1.duplicate()));
                    i = i + 1;
                }
                assert(json_model(JsonValue::Object(copy)) == json_model(*self)) by {
                    assert(json_model(JsonValue::Object(copy))->Object_0 =~= json_model(
                        *self,
                    )->Object_0);
                }
                JsonValue::Object(copy)
            },
        }
    }

    /// The string that holds a text.
    pub fn text(value: &str) -> (r: JsonValue)
        ensures
            r.deep_view() == JsonSpec::String(value@),
    {
        JsonValue::String(String::from_str(value))
    }

    /// The number that holds an unsigned integer.
    pub fn number(value: u64) -> (r: JsonValue)
        ensures
            r.deep_view() == JsonSpec::Number(value),
    {
        JsonValue::Number(value)
    }

    /// The string that holds an owned text.
    pub fn string(value: String) -> (r: JsonValue)
        ensures
            r.deep_view() == JsonSpec::String(value@),
    {
        JsonValue::String(value)
    }

    /// The array of the given items.
    pub fn array(items: Vec<JsonValue>) -> (r: JsonValue)
        ensures
            r.deep_view() == JsonSpec::Array(items.deep_view()),
    {
        let r = JsonValue::Array(items);
        assert(r.deep_view()->Array_0 =~= items.deep_view());
        r
    }

    /// The object of the given fields.
    pub fn object(fields: Vec<(String, JsonValue)>) -> (r: JsonValue)
        ensures
            r.deep_view() == JsonSpec::Object(fields.deep_view()),
    {
        let r = JsonValue::Object(fields);
        assert(r.deep_view()->Object_0 =~= fields.deep_view());
        r
    }

    /// The compact text of the document, as `serde_json` writes it.
    pub fn to_string(&self) -> (text: String)
        ensures
            text@ == json_text(self.deep_view()),
    {
        render(self)
    }

    /// Reads a document from its text, as `serde_json` reads it.
    pub fn parse(text: &str) -> (value: Option<JsonValue>)
        ensures
            value.deep_view() == json_parse(text@),
    {
        read(text)
    }
}

/// Puts a field after the fields that are there.
pub fn put(fields: &mut Vec<(String, JsonValue)>, key: &str, value: JsonValue)
    ensures
        final(fields).deep_view() == old(fields).deep_view().push((key@, value.deep_view())),
{
    fields.push((String::from_str(key), value));
}

/// `serde_json::Value`, of which nothing is seen from here: a document goes
/// through it on its way to its text and on its way back.
#[verifier::external_type_specification]
#[verifier::external_body]
pub struct ExValue(serde_json::Value);

/// The compact text that `serde_json` writes for a document.
pub uninterp spec fn json_text(value: JsonSpec) -> Seq<char>;

/// The document that `serde_json` reads from a text: `None` where the text
/// is no JSON document, or holds a number that is no unsigned 64-bit
/// integer.
pub uninterp spec fn json_parse(text: Seq<char>) -> Option<JsonSpec>;

/// Converts a document into a `serde_json::Value`, variant by variant. The
/// fields of an object are collected into a `serde_json::Map`, which keeps
/// the later of two fields with one key.
#[verifier::external_body]
fn to_outside(value: &JsonValue) -> (out: serde_json::Value) {
    match value {
        JsonValue::Null => serde_json::Value::Null,
        JsonValue::Bool(b) => serde_json::Value::Bool(*b),
        JsonValue::Number(n) => serde_json::Value::from(*n),
        JsonValue::String(s) => serde_json::Value::String(s.clone()),
        JsonValue::Array(items) => serde_json::Value::Array(items.iter().map(to_outside).collect()),
        JsonValue::Object(fields) => serde_json::Value::Object(
            fields.iter().map(|f| (f.0.clone(), to_outside(&f.1))).collect(),
        ),
    }
}

/// Calls `to_string` of `serde_json::Value`: the compact JSON text of the
/// document, a function of the document alone.
#[verifier::external_body]
fn render(value: &JsonValue) -> (text: String)
    ensures
        text@ == json_text(value.deep_view()),
{
    to_outside(value).to_string()
}

/// Converts a `serde_json::Value` into a document, variant by variant. A
/// number is asked for with `as_u64`; where that gives nothing, there is no
/// document.
#[verifier::external_body]
fn from_outside(value: serde_json::Value) -> (out: Option<JsonValue>) {
    Some(match value {
        serde_json::Value::Null => JsonValue::Null,
        serde_json::Value::Bool(b) => JsonValue::Bool(b),
        serde_json::Value::Number(n) => JsonValue::Number(n.as_u64()?),
        serde_json::Value::String(s) => JsonValue::String(s),
        serde_json::Value::Array(items) => JsonValue::Array(
            items.into_iter().map(from_outside).collect::<Option<Vec<JsonValue>>>()?,
        ),
        serde_json::Value::Object(fields) => JsonValue::Object(
            fields.into_iter().map(|f| Some((f.0, from_outside(f.1)?))).collect::<Option<Vec<_>>>()?,
        ),
    })
}

/// Calls `serde_json::from_str` for a `serde_json::Value`: the document that
/// the text holds, a function of the text alone.
#[verifier::external_body]
fn read(text: &str) -> (value: Option<JsonValue>)
    ensures
        value.deep_view() == json_parse(text@),
{
    serde_json::from_str::<serde_json::Value>(text).ok().and_then(from_outside)
}

} // verus!
