//! Reading replies: from the status code and the body text of a reply to a
//! typed record, or to the error that says why there is none.

use crate::error::{ErrorView, GmoCoinError};
use crate::json::{json_parse, json_text, JsonSpec, JsonValue};
use crate::record::{FromJson, ToJson};
use vstd::prelude::*;

verus! {

/// What a transport hands back for one request.
#[derive(Debug, Clone, PartialEq, Eq)]
pub enum Reply {
    /// The request could not be sent, or no reply arrived; the field holds
    /// the transport's own words.
    Failed(String),
    /// A reply arrived, but its body could not be read; the field holds the
    /// transport's own words.
    Unreadable(String),
    /// A reply arrived: its status code and the text of its body.
    Received { status: u16, body: String },
}

/// The model of a [`Reply`].
pub enum ReplyView {
    Failed(Seq<char>),
    Unreadable(Seq<char>),
    Received { status: u16, body: Seq<char> },
}

impl DeepView for Reply {
    type V = ReplyView;

    open spec fn deep_view(&self) -> ReplyView {
        match self {
            Reply::Failed(detail) => ReplyView::Failed(detail@),
            Reply::Unreadable(detail) => ReplyView::Unreadable(detail@),
            Reply::Received { status, body } => ReplyView::Received { status: *status, body: body@ },
        }
    }
}

/// The model of the result of reading a reply.
pub open spec fn result_view<T: DeepView>(r: Result<T, GmoCoinError>) -> Result<
    <T as DeepView>::V,
    ErrorView,
> {
    match r {
        Ok(record) => Ok(record.deep_view()),
        Err(e) => Err(e.deep_view()),
    }
}

/// Whether a status code says that the request succeeded.
pub open spec fn is_success(status: u16) -> bool {
    200 <= status <= 299
}

/// What a document that was read from a body, if one was read, is read as.
pub open spec fn document_outcome<T: FromJson>(document: Option<JsonSpec>) -> Result<
    <T as DeepView>::V,
    ErrorView,
> {
    match document {
        Some(document) => match T::decoded(document) {
            Some(record) => Ok(record),
            None => Err(ErrorView::Json),
        },
        None => Err(ErrorView::Json),
    }
}

/// What a status code and a body are read as. A status code outside 200 to
/// 299 is an error of its own, whatever the body holds. Otherwise the body
/// has to be a JSON document of the shape of the type.
pub open spec fn body_outcome<T: FromJson>(status: u16, body: Seq<char>) -> Result<
    <T as DeepView>::V,
    ErrorView,
> {
    if !is_success(status) {
        Err(ErrorView::HttpStatus(status))
    } else {
        document_outcome::<T>(json_parse(body))
    }
}

/// What a reply is read as: the failure of the transport, with its words,
/// or what the status code and the body are read as.
pub open spec fn reply_outcome<T: FromJson>(reply: ReplyView) -> Result<
    <T as DeepView>::V,
    ErrorView,
> {
    match reply {
        ReplyView::Failed(detail) => Err(ErrorView::Transport(detail)),
        ReplyView::Unreadable(detail) => Err(ErrorView::ResponseRead(detail)),
        ReplyView::Received { status, body } => body_outcome::<T>(status, body),
    }
}

/// Reads a typed record from a document that was read from the body of a
/// reply, if one was read and has the shape of the type.
pub fn read_document<T: FromJson>(document: Option<JsonValue>) -> (r: Result<T, GmoCoinError>)
    ensures
        result_view(r) == document_outcome::<T>(document.deep_view()),
{
    match document {
        Some(value) => match T::from_json(&value) {
            Some(record) => Ok(record),
            None => Err(GmoCoinError::Json),
        },
        None => Err(GmoCoinError::Json),
    }
}

/// Reads a typed record from the status code and the body text of a
/// reply.
pub fn read_body<T: FromJson>(status: u16, body: &str) -> (r: Result<T, GmoCoinError>)
    ensures
        result_view(r) == body_outcome::<T>(status, body@),
{
    if status < 200 || status > 299 {
        return Err(GmoCoinError::HttpStatus(status));
    }
    read_document(JsonValue::parse(body))
}

/// Reads a typed record from what the transport handed back.
pub fn read_reply<T: FromJson>(reply: &Reply) -> (r: Result<T, GmoCoinError>)
    ensures
        result_view(r) == reply_outcome::<T>(reply.deep_view()),
{
    match reply {
        Reply::Failed(detail) => Err(GmoCoinError::Transport(detail.clone())),
        Reply::Unreadable(detail) => Err(GmoCoinError::ResponseRead(detail.clone())),
        Reply::Received { status, body } => read_body(*status, body.as_str()),
    }
}

/// Writes a record as the text of its JSON document.
pub fn write_record<T: ToJson>(record: &T) -> (text: String)
    ensures
        text@ == json_text(T::encoded(record.deep_view())),
{
    record.to_json().to_string()
}

} // verus!
