//! The bearer credential of an inbound request.

use crate::error::GatewayError;
use crate::outside::{bearer_token, decode_bearer};
use vstd::prelude::*;

verus! {

/// The credential that one request presented. It lives as long as the
/// request does and is handed upstream as the session cookie.
#[derive(Debug, PartialEq, Eq)]
pub struct Session(pub String);

impl View for Session {
    type V = Seq<char>;

    open spec fn view(&self) -> Seq<char> {
        self.0@
    }
}

/// The bytes of an optional header value.
pub open spec fn header_bytes(value: Option<&[u8]>) -> Option<Seq<u8>> {
    match value {
        Some(bytes) => Some(bytes@),
        None => None,
    }
}

/// The credential that a decoded header yields: the token, or an
/// authentication failure where there is none.
pub open spec fn credential_of(token: Option<Seq<char>>) -> Result<Seq<char>, GatewayError> {
    match token {
        Some(token) => Ok(token),
        None => Err(GatewayError::AuthMissing),
    }
}

/// The credential of a request, given the first value of its `Authorization`
/// header: the bearer token of that value. A request without the header, or
/// with a value that is no bearer credential, fails authentication.
pub open spec fn credential(authorization: Option<Seq<u8>>) -> Result<Seq<char>, GatewayError> {
    match authorization {
        Some(value) => credential_of(bearer_token(value)),
        None => Err(GatewayError::AuthMissing),
    }
}

impl Session {
    /// The session for a decoded header value.
    pub fn from_token(token: Option<String>) -> (session: Result<Session, GatewayError>)
        ensures
            match session {
                Ok(s) => token is Some && s@ == token->0@,
                Err(e) => token is None && e == GatewayError::AuthMissing,
            },
    {
        match token {
            Some(token) => Ok(Session(token)),
            None => Err(GatewayError::AuthMissing),
        }
    }

    /// Extracts the session from the first value of the request's
    /// `Authorization` header, if the request has one.
    pub fn from_request_parts(authorization: Option<&[u8]>) -> (session: Result<
        Session,
        GatewayError,
    >)
        ensures
            match session {
                Ok(s) => credential(header_bytes(authorization)) == Ok::<Seq<char>, GatewayError>(
                    s@,
                ),
                Err(e) => credential(header_bytes(authorization)) == Err::<
                    Seq<char>,
                    GatewayError,
                >(e),
            },
    {
        match authorization {
            Some(value) => Session::from_token(decode_bearer(value)),
            None => Err(GatewayError::AuthMissing),
        }
    }

    /// The token of the credential.
    pub fn token(&self) -> (token: &str)
        ensures
            token@ == self@,
    {
        self.0.as_str()
    }
}

} // verus!
