//! The pure decisions of the connection's two-phase transaction: how a
//! request is framed, when the single reply line is a protocol error,
//! and how event lines degrade to `Event::Other`.
//!
//! The surrounding application owns the socket and runs the phases in
//! order: it writes the framed request and closes the write direction,
//! reads exactly one line and hands it to `parse_reply_line`, then
//! hands each further line (or each failed read) to `event_from_line`.

use vstd::prelude::*;
use crate::dec::{decode_event, decode_reply, spec_decode_event, spec_decode_reply};
use crate::wire::{Error, Event, EventV, Reply, reply_view};

verus! {

/// Resolve the socket location for a connection attempt from the value
/// of the required environment variable: a missing value is a
/// configuration error, fatal to the attempt before any transport is
/// touched.
pub fn resolve_socket_path(env_value: Option<String>) -> (r: Result<String, Error>)
    ensures
        match env_value {
            Some(p) => r matches Ok(q) && q@ == p@,
            None => r matches Err(e) && e == Error::Config,
        },
{
    match env_value {
        Some(p) => Ok(p),
        None => Err(Error::Config),
    }
}

/// Decode the single reply line of a transaction. A line that is not a
/// reply encoding is a protocol error, fatal to the `send`; a decoded
/// reply may still carry the far end's error string, which is data for
/// the caller to inspect, not a failure.
pub fn parse_reply_line(line: &str) -> (r: Result<Reply, Error>)
    ensures
        match spec_decode_reply(line@) {
            Some(rv) => r matches Ok(rep) && reply_view(rep) == rv,
            None => r matches Err(e) && e == Error::Protocol,
        },
{
    match decode_reply(line) {
        Some(rep) => Ok(rep),
        None => Err(Error::Protocol),
    }
}

/// What an event line yields: the decoded event, or `Other` when there
/// is no line (the read failed or the transport closed) or the line
/// does not decode. Event delivery is best-effort: nothing here ever
/// fails, so a read anomaly never ends the consuming loop.
pub open spec fn spec_event_of_line(l: Option<Seq<char>>) -> EventV {
    match l {
        None => EventV::Other,
        Some(s) => match spec_decode_event(s) {
            Some(v) => v,
            None => EventV::Other,
        },
    }
}

/// Turn one pulled line, or a failed read, into an event.
pub fn event_from_line(line: Option<&str>) -> (e: Event)
    ensures
        e@ == spec_event_of_line(
            match line {
                Some(l) => Some(l@),
                None => None,
            },
        ),
{
    match line {
        Some(l) => match decode_event(l) {
            Some(ev) => ev,
            None => Event::Other,
        },
        None => Event::Other,
    }
}

} // verus!
