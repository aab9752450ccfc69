//! What the gateway sends back to its caller.

use crate::error::GatewayError;
use serde_json::Value;
use vstd::prelude::*;

verus! {

/// The body of a response. Either way it is sent as `application/json`.
#[derive(Debug, PartialEq)]
pub enum Payload {
    /// JSON text that the gateway wrote itself.
    Text(String),
    /// A document relayed from upstream, untouched.
    Document(Value),
}

/// What a [`Payload`] holds, as plain values.
pub enum PayloadView {
    Text(Seq<char>),
    Document(Value),
}

impl View for Payload {
    type V = PayloadView;

    open spec fn view(&self) -> PayloadView {
        match self {
            Payload::Text(text) => PayloadView::Text(text@),
            Payload::Document(document) => PayloadView::Document(*document),
        }
    }
}

/// A response: an HTTP status and a JSON body.
#[derive(Debug, PartialEq)]
pub struct Response {
    pub status: u16,
    pub payload: Payload,
}

/// What a [`Response`] holds, as plain values.
pub struct ResponseView {
    pub status: u16,
    pub payload: PayloadView,
}

impl View for Response {
    type V = ResponseView;

    open spec fn view(&self) -> ResponseView {
        ResponseView { status: self.status, payload: self.payload@ }
    }
}

/// The answer to a health check: status 200 and `{"status":"healthy"}`.
pub open spec fn health_response() -> ResponseView {
    ResponseView { status: 200, payload: PayloadView::Text("{\"status\":\"healthy\"}"@) }
}

/// The response that reports an error: the status of the error, and its
/// structured body.
pub open spec fn error_response(error: GatewayError) -> ResponseView {
    ResponseView {
        status: error.spec_status_code(),
        payload: PayloadView::Text(error.spec_body()),
    }
}

/// The response that relays a document: status 200 and the document.
pub open spec fn document_response(document: Value) -> ResponseView {
    ResponseView { status: 200, payload: PayloadView::Document(document) }
}

/// The response to a request that ended in `result`.
pub open spec fn response_to(result: Result<Value, GatewayError>) -> ResponseView {
    match result {
        Ok(document) => document_response(document),
        Err(error) => error_response(error),
    }
}

/// Answers a health check. It takes nothing from the request: the answer is
/// the same with or without credentials.
pub fn health_check() -> (response: Response)
    ensures
        response@ == health_response(),
{
    Response { status: 200, payload: Payload::Text(String::from_str("{\"status\":\"healthy\"}")) }
}

impl Response {
    /// The response that reports `error`.
    pub fn failure(error: GatewayError) -> (response: Response)
        ensures
            response@ == error_response(error),
    {
        Response { status: error.status_code(), payload: Payload::Text(error.body()) }
    }

    /// The response that relays `document`.
    pub fn document(document: Value) -> (response: Response)
        ensures
            response@ == document_response(document),
    {
        Response { status: 200, payload: Payload::Document(document) }
    }

    /// The response to a request that ended in `result`.
    pub fn from_result(result: Result<Value, GatewayError>) -> (response: Response)
        ensures
            response@ == response_to(result),
    {
        match result {
            Ok(document) => Response::document(document),
            Err(error) => Response::failure(error),
        }
    }
}

} // verus!
