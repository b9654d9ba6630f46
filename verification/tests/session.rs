//! Tests for the connection's pure transaction decisions, driven by a
//! mock transport that serves a fixed sequence of lines.

use niri_client::session::{event_from_line, parse_reply_line, resolve_socket_path};
use niri_client::{Error, Event, Response};

/// A mock transport: serves its lines in order, then reports a closed
/// stream by yielding no line.
struct MockTransport {
    lines: Vec<String>,
    pos: usize,
}

impl MockTransport {
    fn new(lines: &[&str]) -> MockTransport {
        MockTransport {
            lines: lines.iter().map(|l| (*l).to_owned()).collect(),
            pos: 0,
        }
    }

    fn read_line(&mut self) -> Option<String> {
        let line = self.lines.get(self.pos).cloned();
        if line.is_some() {
            self.pos += 1;
        }
        line
    }
}

#[test]
fn reply_then_events_in_order() {
    let mut t = MockTransport::new(&[
        "{\"Ok\":\"Handled\"}\n",
        "{\"WorkspaceActivated\":{\"id\":1,\"focused\":true}}\n",
        "{\"WorkspaceActivated\":{\"id\":2,\"focused\":false}}\n",
    ]);
    let reply_line = t.read_line().expect("reply line");
    let reply = parse_reply_line(&reply_line).expect("reply decodes");
    assert_eq!(reply, Ok(Response::Handled));

    let e1 = event_from_line(t.read_line().as_deref());
    let e2 = event_from_line(t.read_line().as_deref());
    assert_eq!(e1, Event::WorkspaceActivated { id: 1, focused: true });
    assert_eq!(e2, Event::WorkspaceActivated { id: 2, focused: false });
}

#[test]
fn closed_transport_yields_other_not_failure() {
    let mut t = MockTransport::new(&["{\"Ok\":\"Handled\"}\n"]);
    let reply_line = t.read_line().expect("reply line");
    assert_eq!(parse_reply_line(&reply_line), Ok(Ok(Response::Handled)));
    // The transport closed right after the reply: the next pull sees no
    // line and must yield `Other`, not an error.
    let next = t.read_line();
    assert_eq!(next, None);
    assert_eq!(event_from_line(next.as_deref()), Event::Other);
}

#[test]
fn undecodable_event_line_yields_other() {
    assert_eq!(event_from_line(Some("")), Event::Other);
    assert_eq!(event_from_line(Some("garbage")), Event::Other);
    assert_eq!(event_from_line(Some("{\"WorkspacesChanged\":")), Event::Other);
}

#[test]
fn decodable_other_line_yields_other() {
    assert_eq!(event_from_line(Some("\"Other\"\n")), Event::Other);
}

#[test]
fn missing_socket_location_is_a_config_error() {
    assert_eq!(resolve_socket_path(None), Err(Error::Config));
}

#[test]
fn explicit_socket_location_is_kept() {
    assert_eq!(
        resolve_socket_path(Some("/run/user/1000/niri.sock".to_owned())),
        Ok("/run/user/1000/niri.sock".to_owned())
    );
}

#[test]
fn undecodable_reply_line_is_a_protocol_error() {
    assert_eq!(parse_reply_line("not a reply"), Err(Error::Protocol));
    assert_eq!(parse_reply_line(""), Err(Error::Protocol));
}

#[test]
fn far_end_error_string_is_data_not_failure() {
    let r = parse_reply_line("{\"Err\":\"no such workspace\"}\n");
    assert_eq!(r, Ok(Err("no such workspace".to_owned())));
}
