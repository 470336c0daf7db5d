//! The service's configuration and shared state, as plain data; reading the
//! configuration file happens around the library.
use vstd::prelude::*;

use vstd::string::StringExecFns;

use std::sync::Arc;

verus! {

/// State shared by the request handlers; each handler holding a clone of
/// `handling` counts as one request in flight.
#[derive(Clone)]
pub struct AppState {
    pub handling: Arc<String>,
}

/// Logging settings.
#[derive(Debug, Clone)]
pub struct Log {
    pub level: String,
}

/// HTTP server settings.
#[derive(Debug, Clone)]
pub struct Server {
    pub port: u16,
    pub cert_file: String,
    pub key_file: String,
    pub graceful_shutdown: usize,
}

/// The remote services the background job talks to.
#[derive(Debug, Clone)]
pub struct Base {
    pub taskbase: String,
    pub writing: String,
}

/// The whole configuration.
#[derive(Debug, Clone)]
pub struct Conf {
    pub env: String,
    pub log: Log,
    pub server: Server,
    pub base: Base,
}

/// The name and version a service reports about itself.
#[derive(Debug, Clone, PartialEq, Eq)]
pub struct AppVersion {
    pub name: String,
    pub version: String,
}

/// The marker that in-flight requests share.
pub open spec fn handling_marker() -> Seq<char> {
    "handling"@
}

impl Conf {
    /// The state shared by the handlers of a service with this configuration.
    pub fn new_app_state(&self) -> (r: AppState)
        ensures
            (*r.handling)@ == handling_marker(),
    {
        AppState { handling: Arc::new(String::from_str("handling")) }
    }
}

/// The next second of a graceful shutdown: `None` to stop now, because the
/// countdown ran out or no request is in flight besides the state's own
/// reference (`handling` counts the references), else the seconds left
/// after waiting one more.
pub fn shutdown_step(secs_left: usize, handling: usize) -> (r: Option<usize>)
    ensures
        r == (if secs_left == 0 || handling <= 1 {
            None
        } else {
            Some((secs_left - 1) as usize)
        }),
{
    if secs_left == 0 || handling <= 1 {
        None
    } else {
        Some(secs_left - 1)
    }
}

} // verus!
