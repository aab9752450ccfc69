//! Which year's leaderboard a request asks for.

use crate::decimal::{i32_value, parse_i32};
use crate::error::GatewayError;
use vstd::prelude::*;

verus! {

/// The characters of an optional text.
pub open spec fn optional_text(text: Option<&str>) -> Option<Seq<char>> {
    match text {
        Some(text) => Some(text@),
        None => None,
    }
}

/// The year of a request: the integer that its `year` parameter writes, or
/// the current year where it has no such parameter. A parameter that writes
/// no integer is a client error.
pub open spec fn resolved_year(parameter: Option<Seq<char>>, current_year: i32) -> Result<
    i32,
    GatewayError,
> {
    match parameter {
        Some(text) => match i32_value(text) {
            Some(year) => Ok(year),
            None => Err(GatewayError::BadRequest),
        },
        None => Ok(current_year),
    }
}

/// Resolves the year of a request made in the calendar year `current_year`.
pub fn resolve_year(parameter: Option<&str>, current_year: i32) -> (year: Result<
    i32,
    GatewayError,
>)
    ensures
        year == resolved_year(optional_text(parameter), current_year),
{
    match parameter {
        Some(text) => match parse_i32(text) {
            Some(year) => Ok(year),
            None => Err(GatewayError::BadRequest),
        },
        None => Ok(current_year),
    }
}

/// A request without a `year` parameter resolves to the calendar year in
/// which it is made, so two such requests made in the same year resolve to
/// the same year. A request with the parameter resolves the same in every
/// year.
pub proof fn lemma_resolved_year_and_clock(parameter: Option<Seq<char>>, now: i32, later: i32)
    ensures
        resolved_year(None, now) == Ok::<i32, GatewayError>(now),
        now == later ==> resolved_year(parameter, now) == resolved_year(parameter, later),
        parameter is Some ==> resolved_year(parameter, now) == resolved_year(parameter, later),
{
}

} // verus!
