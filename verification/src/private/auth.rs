//! Credentials, and the signed requests of the private API.

use crate::endpoint::PRIVATE_API;
use crate::error::GmoCoinError;
use crate::json::{json_text, JsonValue};
use crate::request::{outcome, query_pairs, query_pairs_of, Method, Request, RequestView};
use crate::sign::{
    hmac_sha256, lemma_hex_lower_shape, signable, signature, signing_text, try_sign_request,
};
use crate::text::{decimal, decimal_string, lemma_decimal_digits};
use vstd::prelude::*;
use vstd::string::*;
use vstd::utf8::*;

verus! {

/// The environment variable that holds the API key.
pub const API_KEY_VARIABLE: &'static str = "GMO_COIN_API_KEY";

/// The environment variable that holds the API secret.
pub const SECRET_KEY_VARIABLE: &'static str = "GMO_COIN_SECRET_KEY";

/// The key that names an account and the secret that signs its requests.
#[derive(Debug, Clone, PartialEq, Eq)]
pub struct Credentials {
    pub api_key: String,
    pub secret_key: String,
}

/// The model of [`Credentials`].
pub struct CredentialsView {
    pub api_key: Seq<char>,
    pub secret_key: Seq<char>,
}

impl DeepView for Credentials {
    type V = CredentialsView;

    open spec fn deep_view(&self) -> CredentialsView {
        CredentialsView { api_key: self.api_key@, secret_key: self.secret_key@ }
    }
}

impl Credentials {
    /// Makes credentials of the values of the two environment variables,
    /// each `None` where the variable is not set or holds no valid text. A
    /// missing value is a configuration error that names its variable, the
    /// key's before the secret's.
    pub fn resolve(api_key: Option<String>, secret_key: Option<String>) -> (r: Result<
        Credentials,
        GmoCoinError,
    >)
        ensures
            match r {
                Ok(c) => api_key.deep_view() == Some(c.api_key@) && secret_key.deep_view() == Some(
                    c.secret_key@,
                ),
                Err(e) => e matches GmoCoinError::EnvVar(name) && if api_key is None {
                    name@ == API_KEY_VARIABLE@
                } else {
                    secret_key is None && name@ == SECRET_KEY_VARIABLE@
                },
            },
    {
        match api_key {
            Some(api_key) => match secret_key {
                Some(secret_key) => Ok(Credentials { api_key, secret_key }),
                None => Err(GmoCoinError::EnvVar(String::from_str(SECRET_KEY_VARIABLE))),
            },
            None => Err(GmoCoinError::EnvVar(String::from_str(API_KEY_VARIABLE))),
        }
    }
}

/// Whether a byte may stand in the value of an HTTP header: a tab, or any
/// byte from the space on but the delete character.
pub open spec fn is_header_byte(b: u8) -> bool {
    (b >= 32 && b != 127) || b == 9
}

/// Whether a text may stand as the value of an HTTP header: each byte of
/// its UTF-8 form may.
pub open spec fn valid_header_value(text: Seq<char>) -> bool {
    forall|i: int|
        0 <= i < encode_utf8(text).len() ==> is_header_byte(#[trigger] encode_utf8(text)[i])
}

/// Calls `HeaderValue::from_str` of the `http` crate, which `ureq`
/// re-exports, and says whether it accepted the text. It accepts a text
/// exactly when each of its bytes is a tab or is at least 32 and not 127.
#[verifier::external_body]
fn header_value_ok(value: &str) -> (ok: bool)
    ensures
        ok == valid_header_value(value@),
{
    ureq::http::HeaderValue::from_str(value).is_ok()
}

/// ASCII text without control characters may stand in a header.
pub proof fn lemma_printable_is_valid(text: Seq<char>)
    requires
        forall|i: int| 0 <= i < text.len() ==> ' ' <= #[trigger] text[i] <= '~',
    ensures
        valid_header_value(text),
{
    is_ascii_chars_encode_utf8(text);
    assert forall|i: int| 0 <= i < encode_utf8(text).len() implies is_header_byte(
        #[trigger] encode_utf8(text)[i],
    ) by {
        assert(text[i] as u8 == encode_utf8(text)[i]);
    }
}

/// The headers of a signed request: the key, the timestamp and the
/// signature, and before them the content type of the body where the
/// request is a `POST`.
pub open spec fn signed_headers(
    method: Method,
    api_key: Seq<char>,
    timestamp: u64,
    sign: Seq<char>,
) -> Seq<(Seq<char>, Seq<char>)> {
    let auth = seq![
        ("API-KEY"@, api_key),
        ("API-TIMESTAMP"@, decimal(timestamp as nat)),
        ("API-SIGN"@, sign),
    ];
    match method {
        Method::GET => auth,
        Method::POST => seq![("content-type"@, "application/json"@)] + auth,
    }
}

/// The signed request of the private API for a path, the parameters of a
/// query and a body. The signature covers the timestamp, the method, the
/// path without the query, and the body as it is sent. A key that cannot
/// stand in a header is refused first, then a request that is too long to be
/// signed.
pub open spec fn signed_request(
    credentials: CredentialsView,
    timestamp: u64,
    method: Method,
    path: Seq<char>,
    query: Seq<(Seq<char>, Seq<char>)>,
    body: Option<Seq<char>>,
) -> Result<RequestView, GmoCoinError> {
    let signed_body = match body {
        Some(b) => b,
        None => Seq::empty(),
    };
    if !valid_header_value(credentials.api_key) {
        Err(GmoCoinError::InvalidHeaderValue)
    } else if !signable(timestamp, method.token(), path, signed_body, credentials.secret_key) {
        Err(GmoCoinError::MissingRequestHeaders)
    } else {
        Ok(
            RequestView {
                method,
                url: PRIVATE_API@ + path,
                query,
                headers: signed_headers(
                    method,
                    credentials.api_key,
                    timestamp,
                    signature(
                        timestamp,
                        method.token(),
                        path,
                        signed_body,
                        credentials.secret_key,
                    ),
                ),
                body,
            },
        )
    }
}

/// The value of the first header with the given name.
pub open spec fn header(headers: Seq<(Seq<char>, Seq<char>)>, name: Seq<char>) -> Option<Seq<char>>
    decreases headers.len(),
{
    if headers.len() == 0 {
        None
    } else if headers.first().0 == name {
        Some(headers.first().1)
    } else {
        header(headers.drop_first(), name)
    }
}

/// A signed request is sent as it was signed: its body is the body that
/// the signature covers, its address is the path that the signature covers
/// after the base address, and the one timestamp stands both in its header
/// and under the signature.
pub proof fn lemma_signed_as_sent(
    credentials: CredentialsView,
    timestamp: u64,
    method: Method,
    path: Seq<char>,
    query: Seq<(Seq<char>, Seq<char>)>,
    body: Option<Seq<char>>,
)
    ensures
        match signed_request(credentials, timestamp, method, path, query, body) {
            Ok(request) => {
                &&& request.method == method
                &&& request.url == PRIVATE_API@ + path
                &&& request.body == body
                &&& header(request.headers, "API-KEY"@) == Some(credentials.api_key)
                &&& header(request.headers, "API-TIMESTAMP"@) == Some(decimal(timestamp as nat))
                &&& header(request.headers, "API-SIGN"@) == Some(
                    signature(
                        timestamp,
                        method.token(),
                        path,
                        match body {
                            Some(b) => b,
                            None => Seq::empty(),
                        },
                        credentials.secret_key,
                    ),
                )
                &&& header(request.headers, "content-type"@) == match method {
                    Method::GET => None::<Seq<char>>,
                    Method::POST => Some("application/json"@),
                }
            },
            Err(_) => true,
        },
{
    reveal_strlit("API-KEY");
    reveal_strlit("API-TIMESTAMP");
    reveal_strlit("API-SIGN");
    reveal_strlit("content-type");
    reveal_with_fuel(header, 6);
    assert("API-KEY"@.len() == 7);
    assert("API-TIMESTAMP"@.len() == 13);
    assert("API-SIGN"@.len() == 8);
    assert("content-type"@.len() == 12);
}

/// Every header of a signed request has a value that may stand in a header.
pub proof fn lemma_signed_headers_valid(
    credentials: CredentialsView,
    timestamp: u64,
    method: Method,
    path: Seq<char>,
    query: Seq<(Seq<char>, Seq<char>)>,
    body: Option<Seq<char>>,
)
    ensures
        match signed_request(credentials, timestamp, method, path, query, body) {
            Ok(request) => forall|i: int|
                0 <= i < request.headers.len() ==> valid_header_value(
                    (#[trigger] request.headers[i]).1,
                ),
            Err(_) => true,
        },
{
    let signed_body = match body {
        Some(b) => b,
        None => Seq::empty(),
    };
    let sign = signature(timestamp, method.token(), path, signed_body, credentials.secret_key);
    let tag = hmac_sha256(
        encode_utf8(credentials.secret_key),
        encode_utf8(signing_text(timestamp, method.token(), path, signed_body)),
    );
    lemma_hex_lower_shape(tag);
    lemma_printable_is_valid(sign);
    lemma_decimal_digits(timestamp as nat);
    lemma_printable_is_valid(decimal(timestamp as nat));
    reveal_strlit("application/json");
    lemma_printable_is_valid("application/json"@);
}

/// Builds a signed request.
fn sign_and_build(
    credentials: &Credentials,
    timestamp: u64,
    method: Method,
    path: &str,
    query: Vec<(String, String)>,
    body: Option<String>,
) -> (r: Result<Request, GmoCoinError>)
    ensures
        outcome(r) == signed_request(
            credentials.deep_view(),
            timestamp,
            method,
            path@,
            query.deep_view(),
            body.deep_view(),
        ),
{
    if !header_value_ok(credentials.api_key.as_str()) {
        return Err(GmoCoinError::InvalidHeaderValue);
    }
    let signed_body: &str = match &body {
        Some(b) => b.as_str(),
        None => "",
    };
    proof {
        reveal_strlit("");
        assert(""@ =~= Seq::<char>::empty());
    }
    let signed = try_sign_request(
        timestamp,
        method.as_str(),
        path,
        signed_body,
        credentials.secret_key.as_str(),
    );
    let sign = match signed {
        Some(sign) => sign,
        None => {
            return Err(GmoCoinError::MissingRequestHeaders);
        },
    };
    let mut headers: Vec<(String, String)> = Vec::new();
    match method {
        Method::GET => {},
        Method::POST => {
            headers.push((String::from_str("content-type"), String::from_str("application/json")));
        },
    }
    headers.push((String::from_str("API-KEY"), credentials.api_key.clone()));
    headers.push((String::from_str("API-TIMESTAMP"), decimal_string(timestamp)));
    headers.push((String::from_str("API-SIGN"), sign));
    let mut url = String::from_str(PRIVATE_API);
    url.append(path);
    proof {
        assert(headers.deep_view() =~= signed_headers(
            method,
            credentials.api_key@,
            timestamp,
            sign@,
        ));
    }
    Ok(Request { method, url, query, headers, body })
}

/// The signed `GET` request for a path without parameters.
pub fn get_without_params(credentials: &Credentials, timestamp: u64, path: &str) -> (r: Result<
    Request,
    GmoCoinError,
>)
    ensures
        outcome(r) == signed_request(
            credentials.deep_view(),
            timestamp,
            Method::GET,
            path@,
            Seq::empty(),
            None,
        ),
{
    let query: Vec<(String, String)> = Vec::new();
    assert(query.deep_view() =~= Seq::empty());
    sign_and_build(credentials, timestamp, Method::GET, path, query, None)
}

/// The signed `GET` request for a path, with the fields of a JSON object as
/// the parameters of its query. The query is not signed.
pub fn get_with_params(
    credentials: &Credentials,
    timestamp: u64,
    path: &str,
    query: &JsonValue,
) -> (r: Result<Request, GmoCoinError>)
    ensures
        outcome(r) == signed_request(
            credentials.deep_view(),
            timestamp,
            Method::GET,
            path@,
            query_pairs_of(query.deep_view()),
            None,
        ),
{
    sign_and_build(credentials, timestamp, Method::GET, path, query_pairs(query), None)
}

/// The signed `POST` request for a path, with the text of a JSON document
/// as its body. The body that is signed is the body that is sent.
pub fn post_with_params(
    credentials: &Credentials,
    timestamp: u64,
    path: &str,
    payload: &JsonValue,
) -> (r: Result<Request, GmoCoinError>)
    ensures
        outcome(r) == signed_request(
            credentials.deep_view(),
            timestamp,
            Method::POST,
            path@,
            Seq::empty(),
            Some(json_text(payload.deep_view())),
        ),
{
    let query: Vec<(String, String)> = Vec::new();
    assert(query.deep_view() =~= Seq::empty());
    sign_and_build(credentials, timestamp, Method::POST, path, query, Some(payload.to_string()))
}

} // verus!
