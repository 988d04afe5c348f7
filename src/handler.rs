//! The decisions of a connection handler, apart from its reads and its
//! HTTP calls: what to do with what a read produced, and how the result of
//! a POST is reported.
use vstd::prelude::*;

use crate::action::{url_of, Action};
use crate::entry::{has_match, invalid_format_text, parsed, LogEntry};

verus! {

/// The status that stands for a POST that got no HTTP response at all.
pub const SERVICE_UNAVAILABLE: u16 = 503;

/// The bound, in seconds, on each HTTP call to the presence service.
pub const FORWARD_TIMEOUT_SECS: u64 = 10;

/// What one read from a connection produced.
#[derive(Debug, Copy, Clone, PartialEq, Eq)]
pub enum ReadEvent<'a> {
    /// Text received: taken as one log entry.
    Data(&'a str),
    /// The read returned no bytes: the peer closed the connection.
    Closed,
    /// The read failed.
    Failed,
}

/// What the connection handler does next.
#[derive(Debug, Clone, PartialEq, Eq)]
pub enum Step<'a> {
    /// POST to the URL for the action, then read again.
    Forward(Action<'a>, String),
    /// The peer closed the connection: stop.
    Close,
    /// The read failed: stop.
    ReadFailed,
    /// The text reported no event: report the error and stop.
    Reject(&'static str),
}

/// Decides what follows a read, for a handler that forwards to `host`.
pub fn next_step<'a>(event: ReadEvent<'a>, host: &'a str) -> (r: Step<'a>)
    ensures
        event is Closed ==> r is Close,
        event is Failed ==> r is ReadFailed,
        event matches ReadEvent::Data(t) ==> (r is Forward <==> has_match(t@)),
        event matches ReadEvent::Data(t) ==> (r matches Step::Forward(a, url) ==> parsed(t@)
            == Some(a@) && url@ == url_of(a@, host@)),
        event matches ReadEvent::Data(t) ==> (r matches Step::Reject(e) ==> !has_match(t@) && e@
            == invalid_format_text()),
{
    match event {
        ReadEvent::Data(text) => {
            let entry = LogEntry::new(text);
            match entry.parse_action() {
                Ok(action) => {
                    let url = action.to_url(host);
                    Step::Forward(action, url)
                },
                Err(e) => Step::Reject(e),
            }
        },
        ReadEvent::Closed => Step::Close,
        ReadEvent::Failed => Step::ReadFailed,
    }
}

/// The result of a forwarded action: the status of the HTTP response,
/// or [`SERVICE_UNAVAILABLE`] as an error where none came.
pub fn forward_outcome(response: Option<u16>) -> (r: Result<u16, u16>)
    ensures
        response matches Some(s) ==> r == Ok::<u16, u16>(s),
        response is None ==> r == Err::<u16, u16>(SERVICE_UNAVAILABLE),
{
    match response {
        Some(status) => Ok(status),
        None => Err(SERVICE_UNAVAILABLE),
    }
}

/// A status in the 2xx range: the presence service took the event.
pub fn is_success(status: u16) -> (r: bool)
    ensures
        r == (200 <= status < 300),
{
    200 <= status && status < 300
}

} // verus!
