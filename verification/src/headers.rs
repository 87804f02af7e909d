//! The upstream provider's API token, as it arrives in the request headers.
//!
//! The header map is the one of the `http` crate, as `axum` hands it to a
//! handler. It is opaque to the verifier: [`header_lookup`] names what a
//! lookup finds, and [`header_get`] is the only function that reads the map.

use crate::error::{ApiError, ApiErrorView};
use vstd::prelude::*;
use vstd::string::StringExecFns;

verus! {

/// `http::HeaderMap`, the headers of a request. Nothing is known of what is
/// inside one but what [`header_lookup`] names.
#[verifier::external_type_specification]
#[verifier::external_body]
#[verifier::reject_recursive_types(T)]
pub struct ExHeaderMap<T>(axum::http::HeaderMap<T>);

/// `http::HeaderValue`, the value of one header: the type of what a header
/// map of a request holds.
#[verifier::external_type_specification]
#[verifier::external_body]
pub struct ExHeaderValue(axum::http::HeaderValue);

/// What a lookup of `name` in `headers` finds: the bytes of the first value
/// held under that name, if there is one.
pub uninterp spec fn header_lookup(
    headers: axum::http::HeaderMap<axum::http::HeaderValue>,
    name: Seq<char>,
) -> Option<Seq<u8>>;

/// `http::HeaderMap::get` with a string key, the value handed out as its
/// bytes (`HeaderValue::as_bytes`): what the lookup finds.
#[verifier::external_body]
pub(crate) fn header_get(
    headers: &axum::http::HeaderMap<axum::http::HeaderValue>,
    name: &str,
) -> (value: Option<Vec<u8>>)
    ensures
        value.deep_view() == header_lookup(*headers, name@),
{
    match headers.get(name) {
        Some(value) => Some(value.as_bytes().to_vec()),
        None => None,
    }
}

/// A byte that may stand in a header value read as text: a visible ASCII
/// character, a space or a tab.
pub open spec fn is_visible_ascii(byte: u8) -> bool {
    (32 <= byte && byte < 127) || byte == 9
}

/// Every byte may stand in a header value read as text.
pub open spec fn all_visible_ascii(bytes: Seq<u8>) -> bool {
    forall|i: int| 0 <= i < bytes.len() ==> is_visible_ascii(#[trigger] bytes[i])
}

/// ASCII bytes read as text: each byte is the character of that code.
pub open spec fn ascii_text(bytes: Seq<u8>) -> Seq<char> {
    Seq::new(bytes.len(), |i: int| bytes[i] as char)
}

/// `String::from_utf8_lossy`: bytes that are all ASCII come back as the text
/// they spell. Of other bytes nothing is claimed.
#[verifier::external_body]
pub(crate) fn text_of_bytes(bytes: &Vec<u8>) -> (text: String)
    ensures
        (forall|i: int| 0 <= i < bytes@.len() ==> #[trigger] bytes@[i] < 128) ==> text@
            == ascii_text(bytes@),
{
    String::from_utf8_lossy(bytes).into_owned()
}

/// The name of the header that carries the token.
pub open spec fn token_header() -> Seq<char> {
    "X-Anthropic-API-Token"@
}

/// What is said of a token that cannot be read as text.
pub open spec fn invalid_token_message() -> Seq<char> {
    "Invalid Anthropic API token"@
}

/// The outcome of reading the token from what the lookup found.
///
/// No value: the header is missing. A value with a byte that is no visible
/// ASCII character, space or tab (so every value that is not UTF-8): a bad
/// request. Otherwise the token is the value, read as text.
pub open spec fn token_of(value: Option<Seq<u8>>) -> Result<Seq<char>, ApiErrorView> {
    match value {
        None => Err(ApiErrorView::MissingHeader { header: token_header() }),
        Some(bytes) => if all_visible_ascii(bytes) {
            Ok(ascii_text(bytes))
        } else {
            Err(ApiErrorView::BadRequest { message: invalid_token_message() })
        },
    }
}

/// A token or an error, as plain text.
pub open spec fn token_view(outcome: Result<String, ApiError>) -> Result<Seq<char>, ApiErrorView> {
    match outcome {
        Ok(token) => Ok(token@),
        Err(error) => Err(error.deep_view()),
    }
}

fn only_visible_ascii(bytes: &Vec<u8>) -> (all: bool)
    ensures
        all == all_visible_ascii(bytes@),
{
    let mut i: usize = 0;
    while i < bytes.len()
        invariant
            i <= bytes.len(),
            forall|j: int| 0 <= j < i ==> is_visible_ascii(#[trigger] bytes@[j]),
        decreases bytes.len() - i,
    {
        let byte: u8 = bytes[i];
        if !((32 <= byte && byte < 127) || byte == 9) {
            return false;
        }
        i = i + 1;
    }
    true
}

/// Reads the token from the value of its header, if the request has one.
pub fn token_from_header(value: Option<Vec<u8>>) -> (outcome: Result<String, ApiError>)
    ensures
        token_view(outcome) == token_of(value.deep_view()),
{
    match value {
        None => Err(ApiError::MissingHeader { header: String::from_str("X-Anthropic-API-Token") }),
        Some(bytes) => {
            assert(bytes.deep_view() =~= bytes@);
            if only_visible_ascii(&bytes) {
                Ok(text_of_bytes(&bytes))
            } else {
                Err(
                    ApiError::BadRequest {
                        message: String::from_str("Invalid Anthropic API token"),
                    },
                )
            }
        },
    }
}

/// Extracts the upstream provider's API token from the request headers.
pub fn extract_api_token(headers: &axum::http::HeaderMap<axum::http::HeaderValue>) -> (outcome:
    Result<String, ApiError>)
    ensures
        token_view(outcome) == token_of(header_lookup(*headers, token_header())),
{
    token_from_header(header_get(headers, "X-Anthropic-API-Token"))
}

} // verus!
