//! What the device serves: the captive portal and its DNS responder while it
//! waits to be configured, the web portal once it runs.

use crate::error::AppError;
use vstd::prelude::*;

pub mod captive_portal;
pub mod dns_responder;
pub mod web_portal;

verus! {

/// The stack that the HTTP server needs to parse JSON, in bytes.
pub const STACK_SIZE: usize = 10240;

/// An HTTP response: the status code and the text of the body.
#[derive(Clone, Debug)]
pub struct Response {
    pub status: u16,
    pub body: String,
}

/// A request that is not served: the response that tells the client so, and
/// the error that is handed up.
#[derive(Debug)]
pub struct Refusal {
    pub response: Response,
    pub error: AppError,
}

} // verus!
