//! Composes a single email from command-line fields and decides, step by
//! step, how it is dispatched: configuration settling, request validation,
//! console preview, the dispatch state machine and the audit log line.
use vstd::prelude::*;

pub mod audit;
pub mod config;
pub mod dispatch;
pub mod preview;
pub mod rate_limit;
pub mod request;

verus! {

} // verus!
