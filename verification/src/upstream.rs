//! The one request that the gateway sends upstream, and what it makes of the
//! answer.

use crate::decimal::{
    decimal_text, format_i32, lemma_decimal_text_characters, lemma_decimal_text_injective,
};
use crate::error::GatewayError;
use crate::outside::{canonical_url, json_document, parse_json, parse_url};
use crate::session::Session;
use serde_json::Value;
use vstd::prelude::*;

verus! {

/// The base address of the upstream service that the gateway was written
/// for.
pub const DOMAIN: &'static str = "https://adventofcode.com";

/// The upstream call for one inbound request: a `GET` of `url` with the
/// header `Cookie: <cookie>`.
#[derive(Debug, PartialEq, Eq)]
pub struct UpstreamRequest {
    pub url: String,
    pub cookie: String,
}

/// What an [`UpstreamRequest`] says, as plain text.
pub struct UpstreamRequestView {
    pub url: Seq<char>,
    pub cookie: Seq<char>,
}

impl View for UpstreamRequest {
    type V = UpstreamRequestView;

    open spec fn view(&self) -> UpstreamRequestView {
        UpstreamRequestView { url: self.url@, cookie: self.cookie@ }
    }
}

/// The address of a leaderboard as the gateway writes it:
/// `{base}/{year}/leaderboard/private/view/{leaderboard}.json`.
pub open spec fn url_text(base: Seq<char>, year: i32, leaderboard: Seq<char>) -> Seq<char> {
    base + "/"@ + decimal_text(year as int) + "/leaderboard/private/view/"@ + leaderboard
        + ".json"@
}

/// The value of the `Cookie` header that presents `token` upstream:
/// `session={token}`.
pub open spec fn cookie_text(token: Seq<char>) -> Seq<char> {
    "session="@ + token
}

/// The upstream request for a parsed address and a credential. Where the
/// address did not parse there is nothing to contact, and the upstream counts
/// as unreachable.
pub open spec fn upstream_request_to(url: Option<Seq<char>>, token: Seq<char>) -> Result<
    UpstreamRequestView,
    GatewayError,
> {
    match url {
        Some(url) => Ok(UpstreamRequestView { url, cookie: cookie_text(token) }),
        None => Err(GatewayError::UpstreamUnreachable),
    }
}

/// The upstream request for a credential, a leaderboard and a year.
pub open spec fn upstream_request(
    base: Seq<char>,
    token: Seq<char>,
    leaderboard: Seq<char>,
    year: i32,
) -> Result<UpstreamRequestView, GatewayError> {
    upstream_request_to(canonical_url(url_text(base, year, leaderboard)), token)
}

impl UpstreamRequest {
    /// Writes the address of a leaderboard.
    pub fn address(base: &str, year: i32, leaderboard: &str) -> (text: String)
        ensures
            text@ == url_text(base@, year, leaderboard@),
    {
        let mut text = String::from_str(base);
        text.append("/");
        let year_text = format_i32(year);
        text.append(year_text.as_str());
        text.append("/leaderboard/private/view/");
        text.append(leaderboard);
        text.append(".json");
        text
    }

    /// Writes the cookie that presents a session upstream.
    pub fn cookie(session: &Session) -> (text: String)
        ensures
            text@ == cookie_text(session@),
    {
        let mut text = String::from_str("session=");
        text.append(session.token());
        text
    }

    /// The request to a parsed address on behalf of a session.
    pub fn to_address(url: Option<String>, session: &Session) -> (request: Result<
        UpstreamRequest,
        GatewayError,
    >)
        ensures
            match request {
                Ok(r) => url is Some && r@ == (UpstreamRequestView {
                    url: url->0@,
                    cookie: cookie_text(session@),
                }),
                Err(e) => url is None && e == GatewayError::UpstreamUnreachable,
            },
    {
        match url {
            Some(url) => Ok(UpstreamRequest { url, cookie: UpstreamRequest::cookie(session) }),
            None => Err(GatewayError::UpstreamUnreachable),
        }
    }

    /// The request for a leaderboard of a year on behalf of a session,
    /// against the upstream service at `base`.
    pub fn new(base: &str, session: &Session, leaderboard: &str, year: i32) -> (request: Result<
        UpstreamRequest,
        GatewayError,
    >)
        ensures
            match request {
                Ok(r) => upstream_request(base@, session@, leaderboard@, year) == Ok::<
                    UpstreamRequestView,
                    GatewayError,
                >(r@),
                Err(e) => upstream_request(base@, session@, leaderboard@, year) == Err::<
                    UpstreamRequestView,
                    GatewayError,
                >(e),
            },
    {
        let text = UpstreamRequest::address(base, year, leaderboard);
        UpstreamRequest::to_address(parse_url(text.as_str()), session)
    }
}

/// Different credentials give different cookies: the cookie of one request
/// never presents the credential of another.
pub proof fn lemma_cookie_text_injective(token: Seq<char>, other: Seq<char>)
    requires
        cookie_text(token) == cookie_text(other),
    ensures
        token == other,
{
    let prefix = "session="@;
    let cookie = cookie_text(token);
    assert(token =~= cookie.subrange(prefix.len() as int, cookie.len() as int));
    assert(other =~= cookie.subrange(prefix.len() as int, cookie.len() as int));
}

/// Against one base, the address text names its year and its leaderboard:
/// two requests that differ in either are written to different addresses.
pub proof fn lemma_url_text_injective(
    base: Seq<char>,
    year: i32,
    leaderboard: Seq<char>,
    other_year: i32,
    other_leaderboard: Seq<char>,
)
    requires
        url_text(base, year, leaderboard) == url_text(base, other_year, other_leaderboard),
    ensures
        year == other_year,
        leaderboard == other_leaderboard,
{
    reveal_strlit("/leaderboard/private/view/");
    let prefix = base + "/"@;
    let middle = "/leaderboard/private/view/"@;
    let suffix = ".json"@;
    let digits = decimal_text(year as int);
    let other_digits = decimal_text(other_year as int);
    let text = url_text(base, year, leaderboard);
    let rest = digits + middle + leaderboard + suffix;
    let other_rest = other_digits + middle + other_leaderboard + suffix;
    assert(rest =~= text.subrange(prefix.len() as int, text.len() as int));
    assert(other_rest =~= text.subrange(prefix.len() as int, text.len() as int));
    lemma_decimal_text_characters(year as int);
    lemma_decimal_text_characters(other_year as int);
    assert(middle[0] == '/');
    if digits.len() < other_digits.len() {
        assert(rest[digits.len() as int] == middle[0]);
        assert(other_rest[digits.len() as int] == other_digits[digits.len() as int]);
    }
    if other_digits.len() < digits.len() {
        assert(other_rest[other_digits.len() as int] == middle[0]);
        assert(rest[other_digits.len() as int] == digits[other_digits.len() as int]);
    }
    assert(digits =~= rest.subrange(0, digits.len() as int));
    assert(other_digits =~= other_rest.subrange(0, digits.len() as int));
    lemma_decimal_text_injective(year as int, other_year as int);
    let skip = digits.len() + middle.len();
    let tail = leaderboard + suffix;
    let other_tail = other_leaderboard + suffix;
    assert(tail =~= rest.subrange(skip as int, rest.len() as int));
    assert(other_tail =~= rest.subrange(skip as int, rest.len() as int));
    assert(leaderboard =~= tail.subrange(0, tail.len() - suffix.len()));
    assert(other_leaderboard =~= tail.subrange(0, tail.len() - suffix.len()));
}

/// How the upstream call ended.
#[derive(Debug, PartialEq, Eq)]
pub enum UpstreamOutcome {
    /// No answer arrived: the connection failed, or broke off before the
    /// body had been read.
    Unreachable,
    /// The upstream service answered.
    Answered { status: u16, body: Vec<u8> },
}

/// What an [`UpstreamOutcome`] holds, as plain values.
pub enum UpstreamOutcomeView {
    Unreachable,
    Answered { status: u16, body: Seq<u8> },
}

impl View for UpstreamOutcome {
    type V = UpstreamOutcomeView;

    open spec fn view(&self) -> UpstreamOutcomeView {
        match self {
            UpstreamOutcome::Unreachable => UpstreamOutcomeView::Unreachable,
            UpstreamOutcome::Answered { status, body } => UpstreamOutcomeView::Answered {
                status: *status,
                body: body@,
            },
        }
    }
}

/// Whether an HTTP status reports success.
pub open spec fn is_success(status: u16) -> bool {
    200 <= status <= 299
}

/// What a parsed body yields: the document, or the failure to read one.
pub open spec fn document_of(parsed: Option<Value>) -> Result<Value, GatewayError> {
    match parsed {
        Some(document) => Ok(document),
        None => Err(GatewayError::UpstreamBodyInvalid),
    }
}

/// What the upstream call yields: the document in the body of a successful
/// answer, or the stage at which the call failed.
pub open spec fn upstream_document(outcome: UpstreamOutcomeView) -> Result<Value, GatewayError> {
    match outcome {
        UpstreamOutcomeView::Unreachable => Err(GatewayError::UpstreamUnreachable),
        UpstreamOutcomeView::Answered { status, body } => if is_success(status) {
            document_of(json_document(body))
        } else {
            Err(GatewayError::UpstreamError { status })
        },
    }
}

/// Accepts the document of a body that parsed, and reports one that did not.
pub fn accept_document(parsed: Result<Value, serde_json::Error>) -> (document: Result<
    Value,
    GatewayError,
>)
    ensures
        match document {
            Ok(d) => parsed is Ok && d == parsed->Ok_0,
            Err(e) => parsed is Err && e == GatewayError::UpstreamBodyInvalid,
        },
{
    match parsed {
        Ok(document) => Ok(document),
        Err(_) => Err(GatewayError::UpstreamBodyInvalid),
    }
}

/// Reads the outcome of the upstream call. The body is parsed only where the
/// status reports success.
pub fn read_upstream(outcome: &UpstreamOutcome) -> (document: Result<Value, GatewayError>)
    ensures
        document == upstream_document(outcome@),
{
    match outcome {
        UpstreamOutcome::Unreachable => Err(GatewayError::UpstreamUnreachable),
        UpstreamOutcome::Answered { status, body } => {
            if 200 <= *status && *status <= 299 {
                accept_document(parse_json(body.as_slice()))
            } else {
                Err(GatewayError::UpstreamError { status: *status })
            }
        },
    }
}

} // verus!
