//! The ways in which a request can fail, and what the caller is told.

use crate::decimal::{is_digit, lemma_natural_text_value, natural_text, push_natural};
use vstd::prelude::*;

verus! {

/// Why the gateway answers with an error.
#[derive(Debug, Clone, Copy, PartialEq, Eq, Structural)]
pub enum GatewayError {
    /// The request carries no usable bearer credential.
    AuthMissing,
    /// The `year` query parameter is present and is not an integer.
    BadRequest,
    /// The upstream service could not be contacted.
    UpstreamUnreachable,
    /// The upstream service answered with a status outside 200..=299.
    UpstreamError { status: u16 },
    /// The upstream service answered with a body that is not JSON.
    UpstreamBodyInvalid,
}

/// Whether `text` can stand between the quotes of a JSON string as it is:
/// printable ASCII without the quote and the backslash.
pub open spec fn is_plain_text(text: Seq<char>) -> bool {
    forall|i: int|
        0 <= i < text.len() ==> {
            let c = #[trigger] text[i];
            ' ' <= c && c <= '~' && c != '"' && c != '\\'
        }
}

impl GatewayError {
    /// The HTTP status of the error response.
    ///
    /// An upstream 404 is passed on as 404; every other upstream failure is
    /// reported as 502.
    pub open spec fn spec_status_code(self) -> u16 {
        match self {
            GatewayError::AuthMissing => 401,
            GatewayError::BadRequest => 400,
            GatewayError::UpstreamUnreachable => 502,
            GatewayError::UpstreamError { status } => if status == 404 {
                404
            } else {
                502
            },
            GatewayError::UpstreamBodyInvalid => 502,
        }
    }

    /// The name of the error, as the response body gives it.
    pub open spec fn spec_kind(self) -> Seq<char> {
        match self {
            GatewayError::AuthMissing => "AuthMissing"@,
            GatewayError::BadRequest => "BadRequest"@,
            GatewayError::UpstreamUnreachable => "UpstreamUnreachable"@,
            GatewayError::UpstreamError { .. } => "UpstreamError"@,
            GatewayError::UpstreamBodyInvalid => "UpstreamBodyInvalid"@,
        }
    }

    /// The sentence that explains the error.
    pub open spec fn spec_message(self) -> Seq<char> {
        match self {
            GatewayError::AuthMissing => "missing or malformed bearer credential"@,
            GatewayError::BadRequest => "the year query parameter is not an integer"@,
            GatewayError::UpstreamUnreachable => "the upstream service could not be reached"@,
            GatewayError::UpstreamError { status } => "the upstream service answered with status "@
                + natural_text(status as int),
            GatewayError::UpstreamBodyInvalid => "the upstream response is not valid JSON"@,
        }
    }

    /// The JSON text of the error response:
    /// `{"error":"<kind>","message":"<message>"}`.
    pub open spec fn spec_body(self) -> Seq<char> {
        "{\"error\":\""@ + self.spec_kind() + "\",\"message\":\""@ + self.spec_message() + "\"}"@
    }

    /// The HTTP status of the error response.
    pub fn status_code(&self) -> (code: u16)
        ensures
            code == self.spec_status_code(),
    {
        match self {
            GatewayError::AuthMissing => 401,
            GatewayError::BadRequest => 400,
            GatewayError::UpstreamUnreachable => 502,
            GatewayError::UpstreamError { status } => if *status == 404 {
                404
            } else {
                502
            },
            GatewayError::UpstreamBodyInvalid => 502,
        }
    }

    /// The name of the error.
    pub fn kind(&self) -> (name: &'static str)
        ensures
            name@ == self.spec_kind(),
    {
        match self {
            GatewayError::AuthMissing => "AuthMissing",
            GatewayError::BadRequest => "BadRequest",
            GatewayError::UpstreamUnreachable => "UpstreamUnreachable",
            GatewayError::UpstreamError { .. } => "UpstreamError",
            GatewayError::UpstreamBodyInvalid => "UpstreamBodyInvalid",
        }
    }

    /// The sentence that explains the error.
    pub fn message(&self) -> (text: String)
        ensures
            text@ == self.spec_message(),
    {
        match self {
            GatewayError::AuthMissing => String::from_str("missing or malformed bearer credential"),
            GatewayError::BadRequest => String::from_str(
                "the year query parameter is not an integer",
            ),
            GatewayError::UpstreamUnreachable => String::from_str(
                "the upstream service could not be reached",
            ),
            GatewayError::UpstreamError { status } => {
                let mut text = String::from_str("the upstream service answered with status ");
                push_natural(&mut text, *status as u32);
                text
            },
            GatewayError::UpstreamBodyInvalid => String::from_str(
                "the upstream response is not valid JSON",
            ),
        }
    }

    /// The JSON text of the error response.
    pub fn body(&self) -> (text: String)
        ensures
            text@ == self.spec_body(),
    {
        let mut text = String::from_str("{\"error\":\"");
        text.append(self.kind());
        text.append("\",\"message\":\"");
        let message = self.message();
        text.append(message.as_str());
        text.append("\"}");
        text
    }
}

/// Every error is reported with a status of the 4xx or 5xx class that tells
/// the stage apart, and never as an internal fault of the gateway: 401 and
/// 400 for what the caller got wrong, 404 and 502 for what upstream did.
pub proof fn lemma_error_status(error: GatewayError)
    ensures
        error.spec_status_code() == 400 || error.spec_status_code() == 401
            || error.spec_status_code() == 404 || error.spec_status_code() == 502,
        error.spec_status_code() != 500,
        error.spec_status_code() == 401 <==> error == GatewayError::AuthMissing,
        error.spec_status_code() == 400 <==> error == GatewayError::BadRequest,
        error.spec_status_code() == 404 <==> error == (GatewayError::UpstreamError { status: 404 }),
{
}

/// The body of every error response is well-formed JSON: neither the kind
/// nor the message, which [`GatewayError::spec_body`] puts between quotes,
/// holds a character that would end or escape its string.
pub proof fn lemma_error_body_is_structured(error: GatewayError)
    ensures
        is_plain_text(error.spec_kind()),
        is_plain_text(error.spec_message()),
{
    reveal_strlit("AuthMissing");
    reveal_strlit("BadRequest");
    reveal_strlit("UpstreamUnreachable");
    reveal_strlit("UpstreamError");
    reveal_strlit("UpstreamBodyInvalid");
    reveal_strlit("missing or malformed bearer credential");
    reveal_strlit("the year query parameter is not an integer");
    reveal_strlit("the upstream service could not be reached");
    reveal_strlit("the upstream service answered with status ");
    reveal_strlit("the upstream response is not valid JSON");
    match error {
        GatewayError::UpstreamError { status } => {
            let lead = "the upstream service answered with status "@;
            let digits = natural_text(status as int);
            lemma_natural_text_value(status as int);
            assert(is_plain_text(lead));
            assert forall|i: int| 0 <= i < error.spec_message().len() implies {
                let c = #[trigger] error.spec_message()[i];
                ' ' <= c && c <= '~' && c != '"' && c != '\\'
            } by {
                if i < lead.len() {
                    assert(error.spec_message()[i] == lead[i]);
                } else {
                    assert(error.spec_message()[i] == digits[i - lead.len()]);
                    assert(is_digit(digits[i - lead.len()]));
                }
            }
        },
        _ => {},
    }
}

} // verus!
