//! The decision logic of a small HTTP gateway that relays private
//! leaderboards: it authenticates a caller by bearer credential, names the
//! single upstream request to issue, and turns the upstream outcome into the
//! response to send.
//!
//! Nothing here performs I/O. A caller hands in what it read from the inbound
//! request, performs the upstream call that [`Step::Fetch`] describes, and
//! hands the outcome back.

pub mod decimal;
pub mod error;
pub mod gateway;
pub mod outside;
pub mod response;
pub mod session;
pub mod upstream;
pub mod year;

pub use error::GatewayError;
pub use gateway::{get_leaderboard, plan_leaderboard, relay_upstream, Step};
pub use response::{health_check, Payload, Response};
pub use session::Session;
pub use upstream::{UpstreamOutcome, UpstreamRequest, DOMAIN};
