//! The handler of `/leaderboard/{id}`, as two decisions around one upstream
//! call: what to do with the inbound request, and what to answer once the
//! call has ended.

use crate::decimal::i32_value;
use crate::error::GatewayError;
use crate::outside::{bearer_token, canonical_url, current_utc_year, json_document};
use crate::response::{
    document_response, error_response, response_to, Response, ResponseView,
};
use crate::session::{credential, header_bytes, Session};
use crate::upstream::{
    cookie_text, is_success, read_upstream, upstream_document, upstream_request,
    url_text, UpstreamOutcome, UpstreamOutcomeView, UpstreamRequest, UpstreamRequestView,
};
use crate::year::{optional_text, resolve_year, resolved_year};
use vstd::prelude::*;

verus! {

/// What the gateway does next with an inbound request.
#[derive(Debug, PartialEq)]
pub enum Step {
    /// Answer at once, without contacting upstream.
    Respond(Response),
    /// Send this one request upstream, then answer with
    /// [`relay_upstream`] of its outcome.
    Fetch(UpstreamRequest),
}

/// What a [`Step`] holds, as plain values.
pub enum StepView {
    Respond(ResponseView),
    Fetch(UpstreamRequestView),
}

impl View for Step {
    type V = StepView;

    open spec fn view(&self) -> StepView {
        match self {
            Step::Respond(response) => StepView::Respond(response@),
            Step::Fetch(request) => StepView::Fetch(request@),
        }
    }
}

/// The upstream request that an inbound request calls for, or the error
/// that it ends in before any upstream call. The credential is checked
/// first, then the year.
pub open spec fn forwarded_request(
    base: Seq<char>,
    authorization: Option<Seq<u8>>,
    leaderboard: Seq<char>,
    year: Option<Seq<char>>,
    current_year: i32,
) -> Result<UpstreamRequestView, GatewayError> {
    match credential(authorization) {
        Ok(token) => match resolved_year(year, current_year) {
            Ok(year) => upstream_request(base, token, leaderboard, year),
            Err(error) => Err(error),
        },
        Err(error) => Err(error),
    }
}

/// The step that an inbound request calls for: the upstream call, or the
/// error response.
pub open spec fn leaderboard_step(
    base: Seq<char>,
    authorization: Option<Seq<u8>>,
    leaderboard: Seq<char>,
    year: Option<Seq<char>>,
    current_year: i32,
) -> StepView {
    match forwarded_request(base, authorization, leaderboard, year, current_year) {
        Ok(request) => StepView::Fetch(request),
        Err(error) => StepView::Respond(error_response(error)),
    }
}

/// Decides what to do with a request for a leaderboard that is made in the
/// calendar year `current_year`.
///
/// `authorization` is the first value of the `Authorization` header,
/// `leaderboard` the path segment, `year` the query parameter of that name.
pub fn plan_leaderboard(
    base: &str,
    authorization: Option<&[u8]>,
    leaderboard: &str,
    year: Option<&str>,
    current_year: i32,
) -> (step: Step)
    ensures
        step@ == leaderboard_step(
            base@,
            header_bytes(authorization),
            leaderboard@,
            optional_text(year),
            current_year,
        ),
{
    let session = match Session::from_request_parts(authorization) {
        Ok(session) => session,
        Err(error) => {
            return Step::Respond(Response::failure(error));
        },
    };
    let year = match resolve_year(year, current_year) {
        Ok(year) => year,
        Err(error) => {
            return Step::Respond(Response::failure(error));
        },
    };
    match UpstreamRequest::new(base, &session, leaderboard, year) {
        Ok(request) => Step::Fetch(request),
        Err(error) => Step::Respond(Response::failure(error)),
    }
}

/// Decides what to do with a request for a leaderboard that is made now.
///
/// The current year is read from the clock before anything else. It decides
/// nothing but the year of a request that names none.
pub fn get_leaderboard(
    base: &str,
    authorization: Option<&[u8]>,
    leaderboard: &str,
    year: Option<&str>,
) -> (step: Step)
    ensures
        exists|current_year: i32|
            step@ == leaderboard_step(
                base@,
                header_bytes(authorization),
                leaderboard@,
                optional_text(year),
                current_year,
            ),
{
    let current_year = current_utc_year();
    plan_leaderboard(base, authorization, leaderboard, year, current_year)
}

/// The response to a request whose upstream call ended in `outcome`.
pub open spec fn relayed_response(outcome: UpstreamOutcomeView) -> ResponseView {
    response_to(upstream_document(outcome))
}

/// Answers a request once its upstream call has ended: the upstream
/// document on success, the error response otherwise.
pub fn relay_upstream(outcome: &UpstreamOutcome) -> (response: Response)
    ensures
        response@ == relayed_response(outcome@),
{
    Response::from_result(read_upstream(outcome))
}

/// A request without a usable credential is answered with 401 and never
/// reaches upstream, whatever else it holds. A request without an
/// `Authorization` header is such a request.
pub proof fn lemma_unauthenticated_is_refused(
    base: Seq<char>,
    authorization: Option<Seq<u8>>,
    leaderboard: Seq<char>,
    year: Option<Seq<char>>,
    current_year: i32,
)
    requires
        authorization is None || bearer_token(authorization->0) is None,
    ensures
        leaderboard_step(base, authorization, leaderboard, year, current_year)
            == StepView::Respond(error_response(GatewayError::AuthMissing)),
        error_response(GatewayError::AuthMissing).status == 401,
{
}

/// An authenticated request whose `year` parameter writes no integer is
/// answered with 400 and never reaches upstream.
pub proof fn lemma_bad_year_is_refused(
    base: Seq<char>,
    authorization: Option<Seq<u8>>,
    leaderboard: Seq<char>,
    year: Seq<char>,
    current_year: i32,
)
    requires
        credential(authorization) is Ok,
        i32_value(year) is None,
    ensures
        leaderboard_step(base, authorization, leaderboard, Some(year), current_year)
            == StepView::Respond(error_response(GatewayError::BadRequest)),
        error_response(GatewayError::BadRequest).status == 400,
{
}

/// Where a request is forwarded, the upstream request is made of that
/// request's own credential, leaderboard and year, and of nothing else: the
/// cookie presents its credential, and the address is the one parsed from
/// the text that names its year and its leaderboard.
pub proof fn lemma_fetch_is_own_request(
    base: Seq<char>,
    authorization: Option<Seq<u8>>,
    leaderboard: Seq<char>,
    year: Option<Seq<char>>,
    current_year: i32,
)
    requires
        leaderboard_step(base, authorization, leaderboard, year, current_year) is Fetch,
    ensures
        authorization is Some,
        bearer_token(authorization->0) is Some,
        resolved_year(year, current_year) is Ok,
        ({
            let request = leaderboard_step(
                base,
                authorization,
                leaderboard,
                year,
                current_year,
            )->Fetch_0;
            let token = bearer_token(authorization->0)->0;
            let year = resolved_year(year, current_year)->Ok_0;
            &&& request.cookie == cookie_text(token)
            &&& canonical_url(url_text(base, year, leaderboard)) == Some(request.url)
        }),
{
}

/// The clock decides nothing for a request that names its year, nor for one
/// without a usable credential: such a request takes the same step in
/// every year.
pub proof fn lemma_step_and_clock(
    base: Seq<char>,
    authorization: Option<Seq<u8>>,
    leaderboard: Seq<char>,
    year: Option<Seq<char>>,
    now: i32,
    later: i32,
)
    requires
        year is Some || credential(authorization) is Err,
    ensures
        leaderboard_step(base, authorization, leaderboard, year, now) == leaderboard_step(
            base,
            authorization,
            leaderboard,
            year,
            later,
        ),
{
}

/// A request is refused before any upstream call only with 401, 400 or 502.
pub proof fn lemma_refusal_status(
    base: Seq<char>,
    authorization: Option<Seq<u8>>,
    leaderboard: Seq<char>,
    year: Option<Seq<char>>,
    current_year: i32,
)
    requires
        leaderboard_step(base, authorization, leaderboard, year, current_year) is Respond,
    ensures
        ({
            let status = leaderboard_step(
                base,
                authorization,
                leaderboard,
                year,
                current_year,
            )->Respond_0.status;
            status == 401 || status == 400 || status == 502
        }),
{
}

/// What the caller is told once the upstream call has ended: 200 exactly
/// where the call yielded a document, and otherwise 404 or 502 with the
/// body of the error. No outcome yields a 500.
pub proof fn lemma_relayed_status(outcome: UpstreamOutcomeView)
    ensures
        relayed_response(outcome).status == 200 || relayed_response(outcome).status == 404
            || relayed_response(outcome).status == 502,
        relayed_response(outcome).status == 200 <==> upstream_document(outcome) is Ok,
        upstream_document(outcome) matches Err(error) ==> relayed_response(outcome)
            == error_response(error),
        relayed_response(UpstreamOutcomeView::Unreachable) == error_response(
            GatewayError::UpstreamUnreachable,
        ),
{
}

/// What the caller is told once upstream has answered. A status of success
/// with a JSON body relays the document with 200; with any other body it is
/// a 502 that reports the body as invalid. A status of failure never has
/// its body read: 404 is passed on as 404, every other status is a 502.
pub proof fn lemma_relayed_answer(status: u16, body: Seq<u8>)
    ensures
        ({
            let response = relayed_response(UpstreamOutcomeView::Answered { status, body });
            &&& is_success(status) && json_document(body) is Some ==> response
                == document_response(json_document(body)->0)
            &&& is_success(status) && json_document(body) is None ==> response == error_response(
                GatewayError::UpstreamBodyInvalid,
            ) && response.status == 502
            &&& !is_success(status) ==> response == error_response(
                GatewayError::UpstreamError { status },
            )
            &&& status == 404 ==> response.status == 404
            &&& !is_success(status) && status != 404 ==> response.status == 502
        }),
{
}

} // verus!
