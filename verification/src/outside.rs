//! Everything this library takes on trust from the crates it calls.
//!
//! Verus does not look inside the items of this file: it believes what their
//! contracts say. Each function here makes one call into another crate and
//! converts what goes in and what comes out; the decisions around the calls
//! are made, and proved, elsewhere.
//!
//! Three of the calls compute a result from their argument alone. What they
//! compute is not written out here. It has a name instead, a spec function
//! without a body, and the contracts of the library speak of that name.

use axum::http::HeaderValue;
use axum_extra::headers::authorization::Bearer;
use axum_extra::headers::{Authorization, Header};
use reqwest::Url;
use serde_json::Value;
use time::OffsetDateTime;
use vstd::prelude::*;

verus! {

/// A JSON document, as `serde_json` holds it. Nothing in this library looks
/// inside one.
#[verifier::external_type_specification]
#[verifier::external_body]
pub struct ExValue(serde_json::Value);

/// The reason why `serde_json` refused a text.
#[verifier::external_type_specification]
#[verifier::external_body]
pub struct ExJsonError(serde_json::Error);

/// The token that the `headers` crate reads out of the value of an
/// `Authorization` header with the `Bearer` scheme, or `None` where it
/// refuses the value.
pub uninterp spec fn bearer_token(value: Seq<u8>) -> Option<Seq<char>>;

/// The text that the `url` crate gives to the address it parses out of
/// `text`, or `None` where it finds no absolute address in it.
pub uninterp spec fn canonical_url(text: Seq<char>) -> Option<Seq<char>>;

/// The document that `serde_json` reads out of `body`, or `None` where
/// `body` is not one JSON text.
pub uninterp spec fn json_document(body: Seq<u8>) -> Option<Value>;

/// Decodes the value of an `Authorization` header with
/// `Authorization::<Bearer>::decode` of the `headers` crate. The bytes go in
/// through `HeaderValue::from_bytes`, and what was accepted comes out through
/// `Authorization::<Bearer>::token`.
///
/// Trusted: the outcome is a function of the bytes alone, named
/// [`bearer_token`]. Bytes that `HeaderValue::from_bytes` refuses count as
/// refused.
#[verifier::external_body]
pub(crate) fn decode_bearer(value: &[u8]) -> (token: Option<String>)
    ensures
        token is Some ==> bearer_token(value@) == Some(token->0@),
        token is None ==> bearer_token(value@) is None,
{
    let value = HeaderValue::from_bytes(value).ok()?;
    let header = Authorization::<Bearer>::decode(&mut std::iter::once(&value)).ok()?;
    Some(header.token().to_owned())
}

/// Parses an absolute address with `Url::parse` and gives the text of the
/// parsed address.
///
/// Trusted: the outcome is a function of the text alone, named
/// [`canonical_url`].
#[verifier::external_body]
pub(crate) fn parse_url(text: &str) -> (url: Option<String>)
    ensures
        url is Some ==> canonical_url(text@) == Some(url->0@),
        url is None ==> canonical_url(text@) is None,
{
    Url::parse(text).ok().map(String::from)
}

/// Reads one JSON document with `serde_json::from_slice`.
///
/// Trusted: the outcome is a function of the bytes alone, named
/// [`json_document`].
#[verifier::external_body]
pub(crate) fn parse_json(body: &[u8]) -> (parsed: Result<Value, serde_json::Error>)
    ensures
        parsed is Ok ==> json_document(body@) == Some(parsed->Ok_0),
        parsed is Err ==> json_document(body@) is None,
{
    serde_json::from_slice::<Value>(body)
}

/// The calendar year of `OffsetDateTime::now_utc()`.
///
/// Trusted: nothing. The result depends on the clock, so no contract speaks
/// of it. The `time` crate panics if the clock is set outside the dates it
/// can hold.
#[verifier::external_body]
pub(crate) fn current_utc_year() -> i32 {
    OffsetDateTime::now_utc().year()
}

} // verus!
