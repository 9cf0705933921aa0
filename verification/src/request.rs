//! Requests as plain values: what a transport has to send, and the rules
//! that turn a JSON object into the parameters of a query string.

use crate::json::{json_model, JsonSpec, JsonValue};
use crate::text::{decimal, decimal_string};
use vstd::prelude::*;
use vstd::string::*;

verus! {

/// The method of a request.
#[derive(Debug, Clone, Copy, PartialEq, Eq, Structural)]
pub enum Method {
    GET,
    POST,
}

impl Method {
    /// The token of the method, as it is sent and as it is signed.
    pub open spec fn token(self) -> Seq<char> {
        match self {
            Method::GET => "GET"@,
            Method::POST => "POST"@,
        }
    }

    /// The token of the method.
    pub fn as_str(&self) -> (s: &'static str)
        ensures
            s@ == self.token(),
    {
        match self {
            Method::GET => "GET",
            Method::POST => "POST",
        }
    }
}

/// One request, ready to be sent. The parameters in `query` are still to be
/// appended to `url` by the transport, which encodes them; a query string
/// that `url` already holds is sent as it is.
#[derive(Debug, Clone, PartialEq, Eq)]
pub struct Request {
    pub method: Method,
    pub url: String,
    pub query: Vec<(String, String)>,
    pub headers: Vec<(String, String)>,
    pub body: Option<String>,
}

/// The model of a [`Request`].
pub struct RequestView {
    pub method: Method,
    pub url: Seq<char>,
    pub query: Seq<(Seq<char>, Seq<char>)>,
    pub headers: Seq<(Seq<char>, Seq<char>)>,
    pub body: Option<Seq<char>>,
}

impl DeepView for Request {
    type V = RequestView;

    open spec fn deep_view(&self) -> RequestView {
        RequestView {
            method: self.method,
            url: self.url@,
            query: self.query.deep_view(),
            headers: self.headers.deep_view(),
            body: self.body.deep_view(),
        }
    }
}

/// The outcome of building a request, in the model.
pub open spec fn outcome(r: Result<Request, crate::error::GmoCoinError>) -> Result<
    RequestView,
    crate::error::GmoCoinError,
> {
    match r {
        Ok(request) => Ok(request.deep_view()),
        Err(e) => Err(e),
    }
}

/// Texts joined with a separator between each two of them.
pub open spec fn join(parts: Seq<Seq<char>>, separator: Seq<char>) -> Seq<char>
    decreases parts.len(),
{
    if parts.len() == 0 {
        seq![]
    } else if parts.len() == 1 {
        parts[0]
    } else {
        join(parts.drop_last(), separator) + separator + parts.last()
    }
}

/// The text that stands for a JSON value in a query string. `null` and
/// objects have none. A string stands for itself, a number for its decimal
/// numeral, and an array for those of its items that have a text, joined by
/// commas.
pub open spec fn query_text(value: JsonSpec) -> Option<Seq<char>>
    decreases value,
{
    match value {
        JsonSpec::Null => None,
        JsonSpec::Bool(b) => Some(
            if b {
                "true"@
            } else {
                "false"@
            },
        ),
        JsonSpec::Number(n) => Some(decimal(n as nat)),
        JsonSpec::String(s) => Some(s),
        JsonSpec::Array(items) => Some(join(item_texts(items), ","@)),
        JsonSpec::Object(_) => None,
    }
}

/// The texts of those items that have one, in the order of the items.
pub open spec fn item_texts(items: Seq<JsonSpec>) -> Seq<Seq<char>>
    decreases items,
{
    if items.len() == 0 {
        seq![]
    } else {
        match query_text(items.last()) {
            Some(t) => item_texts(items.drop_last()).push(t),
            None => item_texts(items.drop_last()),
        }
    }
}

/// The parameters that the fields of an object give: each field whose value
/// has a text, in the order of the fields.
pub open spec fn field_pairs(fields: Seq<(Seq<char>, JsonSpec)>) -> Seq<(Seq<char>, Seq<char>)>
    decreases fields.len(),
{
    if fields.len() == 0 {
        seq![]
    } else {
        match query_text(fields.last().1) {
            Some(t) => field_pairs(fields.drop_last()).push((fields.last().0, t)),
            None => field_pairs(fields.drop_last()),
        }
    }
}

/// The parameters of a query: those of the fields of an object, and none for
/// any other value.
pub open spec fn query_pairs_of(query: JsonSpec) -> Seq<(Seq<char>, Seq<char>)> {
    match query {
        JsonSpec::Object(fields) => field_pairs(fields),
        _ => seq![],
    }
}

/// The text that stands for a JSON value in a query string, if it has one.
pub fn value_to_query_string(value: &JsonValue) -> (r: Option<String>)
    ensures
        r.deep_view() == query_text(value.deep_view()),
    decreases value,
{
    match value {
        JsonValue::Null => None,
        JsonValue::Bool(b) => {
            if *b {
                Some(String::from_str("true"))
            } else {
                Some(String::from_str("false"))
            }
        },
        JsonValue::Number(n) => Some(decimal_string(*n)),
        JsonValue::String(s) => Some(s.clone()),
        JsonValue::Array(items) => {
            let ghost all = json_model(*value)->Array_0;
            let mut out = String::new();
            let mut filled = false;
            let mut i: usize = 0;
            while i < items.len()
                invariant
                    i <= items@.len(),
                    *value == JsonValue::Array(*items),
                    all.len() == items@.len(),
                    forall|j: int| 0 <= j < items@.len() ==> all[j] == json_model(items@[j]),
                    out@ == join(item_texts(all.subrange(0, i as int)), ","@),
                    filled == (item_texts(all.subrange(0, i as int)).len() > 0),
                decreases items@.len() - i,
            {
                assert(decreases_to!(*value => value->Array_0));
                assert(decreases_to!(*items => items[i as int]));
                let item = value_to_query_string(&items[i]);
                proof {
                    let next = all.subrange(0, i + 1);
                    assert(next.last() == all[i as int]);
                    assert(next.drop_last() =~= all.subrange(0, i as int));
                }
                match item {
                    Some(text) => {
                        if filled {
                            out.append(",");
                        }
                        out.append(text.as_str());
                        filled = true;
                        proof {
                            let before = item_texts(all.subrange(0, i as int));
                            assert(before.push(text@).drop_last() =~= before);
                            assert(out@ =~= join(before.push(text@), ","@));
                        }
                    },
                    None => {},
                }
                i = i + 1;
            }
            proof {
                assert(all.subrange(0, i as int) =~= all);
            }
            Some(out)
        },
        JsonValue::Object(_) => None,
    }
}

/// The parameters of a query string that a JSON object gives.
pub fn query_pairs(query: &JsonValue) -> (pairs: Vec<(String, String)>)
    ensures
        pairs.deep_view() == query_pairs_of(query.deep_view()),
{
    let mut pairs: Vec<(String, String)> = Vec::new();
    match query {
        JsonValue::Object(fields) => {
            let ghost all = json_model(*query)->Object_0;
            let mut i: usize = 0;
            while i < fields.len()
                invariant
                    i <= fields@.len(),
                    all.len() == fields@.len(),
                    forall|j: int|
                        0 <= j < fields@.len() ==> all[j] == (
                            fields@[j].0@,
                            json_model(fields@[j].1),
                        ),
                    pairs.deep_view() == field_pairs(all.subrange(0, i as int)),
                decreases fields@.len() - i,
            {
                let field = &fields[i];
                let text = value_to_query_string(&field.1);
                proof {
                    let next = all.subrange(0, i + 1);
                    assert(next.last() == all[i as int]);
                    assert(next.drop_last() =~= all.subrange(0, i as int));
                }
                match text {
                    Some(t) => {
                        pairs.push((field.0.clone(), t));
                    },
                    None => {},
                }
                i = i + 1;
            }
            assert(all.subrange(0, i as int) =~= all);
        },
        _ => {},
    }
    pairs
}

} // verus!
