//! Round-trip and wire-shape tests for the codec.

use niri_client::dec::{
    decode_event, decode_reply, decode_request, decode_response, decode_workspace,
};
use niri_client::enc::{
    encode_event, encode_reply, encode_request, encode_response, encode_workspace,
};
use niri_client::{Action, Event, Request, Response, Workspace, WorkspaceReferenceArg};

fn ws(id: u64, name: Option<&str>, output: Option<&str>, active: bool, focused: bool) -> Workspace {
    Workspace {
        id,
        name: name.map(str::to_owned),
        output: output.map(str::to_owned),
        is_active: active,
        is_focused: focused,
    }
}

#[test]
fn round_trip_request_action_id() {
    let r = Request::Action(Action::FocusWorkspace {
        reference: WorkspaceReferenceArg::Id(42),
    });
    let line = encode_request(&r);
    assert_eq!(decode_request(&line), Some(r));
}

#[test]
fn round_trip_request_action_name() {
    let r = Request::Action(Action::FocusWorkspace {
        reference: WorkspaceReferenceArg::Name("dev \"main\" \\ λ".to_owned()),
    });
    let line = encode_request(&r);
    assert_eq!(decode_request(&line), Some(r));
}

#[test]
fn round_trip_request_event_stream() {
    let r = Request::EventStream;
    let line = encode_request(&r);
    assert_eq!(line, "\"EventStream\"");
    assert_eq!(decode_request(&line), Some(r));
}

#[test]
fn round_trip_response_handled() {
    let r = Response::Handled;
    let line = encode_response(&r);
    assert_eq!(line, "\"Handled\"");
    assert_eq!(decode_response(&line), Some(r));
}

#[test]
fn round_trip_response_workspaces() {
    let r = Response::Workspaces(vec![
        ws(1, Some("main"), Some("DP-1"), true, true),
        ws(2, None, None, false, false),
        ws(3, Some("chat"), Some("HDMI-A-1"), true, false),
    ]);
    let line = encode_response(&r);
    assert_eq!(decode_response(&line), Some(r));
}

#[test]
fn round_trip_workspace_plain() {
    let w = ws(7, None, None, false, true);
    let line = encode_workspace(&w);
    assert_eq!(
        line,
        "{\"id\":7,\"name\":null,\"output\":null,\"is_active\":false,\"is_focused\":true}"
    );
    assert_eq!(decode_workspace(&line), Some(w));
}

#[test]
fn round_trip_workspace_special_name() {
    let w = ws(
        u64::MAX,
        Some("a\"b\\c\nd\te\u{1}f\u{1f}g λ🙂"),
        Some(""),
        true,
        false,
    );
    let line = encode_workspace(&w);
    assert_eq!(decode_workspace(&line), Some(w));
}

#[test]
fn round_trip_event_workspaces_changed() {
    let e = Event::WorkspacesChanged {
        workspaces: vec![ws(1, Some("one"), None, true, false)],
    };
    let line = encode_event(&e);
    assert_eq!(decode_event(&line), Some(e));
}

#[test]
fn round_trip_event_workspace_activated() {
    let e = Event::WorkspaceActivated { id: 9, focused: true };
    let line = encode_event(&e);
    assert_eq!(
        line,
        "{\"WorkspaceActivated\":{\"id\":9,\"focused\":true}}"
    );
    assert_eq!(decode_event(&line), Some(e));
}

#[test]
fn round_trip_event_other() {
    let e = Event::Other;
    let line = encode_event(&e);
    assert_eq!(line, "\"Other\"");
    assert_eq!(decode_event(&line), Some(e));
}

#[test]
fn round_trip_reply_ok() {
    let r: niri_client::Reply = Ok(Response::Workspaces(vec![ws(5, None, Some("eDP-1"), true, true)]));
    let line = encode_reply(&r);
    assert_eq!(decode_reply(&line), Some(r));
}

#[test]
fn round_trip_reply_err() {
    let r: niri_client::Reply = Err("no such workspace".to_owned());
    let line = encode_reply(&r);
    assert_eq!(line, "{\"Err\":\"no such workspace\"}");
    assert_eq!(decode_reply(&line), Some(r));
}

#[test]
fn encode_request_exact_shape() {
    let r = Request::Action(Action::FocusWorkspace {
        reference: WorkspaceReferenceArg::Id(42),
    });
    assert_eq!(
        encode_request(&r),
        "{\"Action\":{\"FocusWorkspace\":{\"reference\":{\"Id\":42}}}}"
    );
    let n = Request::Action(Action::FocusWorkspace {
        reference: WorkspaceReferenceArg::Name("main".to_owned()),
    });
    assert_eq!(
        encode_request(&n),
        "{\"Action\":{\"FocusWorkspace\":{\"reference\":{\"Name\":\"main\"}}}}"
    );
}

#[test]
fn encoded_request_is_a_single_line() {
    let r = Request::Action(Action::FocusWorkspace {
        reference: WorkspaceReferenceArg::Name("line one\nline two\r".to_owned()),
    });
    let line = encode_request(&r);
    assert!(!line.contains('\n'));
    assert!(!line.contains('\r'));
    assert_eq!(decode_request(&line), Some(r));
}

#[test]
fn decode_tolerates_trailing_newline() {
    let line = "{\"Ok\":\"Handled\"}\n";
    assert_eq!(decode_reply(line), Some(Ok(Response::Handled)));
    let ev = "{\"WorkspaceActivated\":{\"id\":3,\"focused\":false}}\r\n";
    assert_eq!(
        decode_event(ev),
        Some(Event::WorkspaceActivated { id: 3, focused: false })
    );
}

#[test]
fn decode_rejects_garbage() {
    assert_eq!(decode_reply("not json at all"), None);
    assert_eq!(decode_reply(""), None);
    assert_eq!(decode_request("{\"Action\":}"), None);
    assert_eq!(decode_event("{\"WorkspaceActivated\":{\"id\":}}"), None);
    assert_eq!(decode_workspace("{\"id\":1}"), None);
    assert_eq!(decode_reply("{\"Ok\":\"Handled\"} trailing"), None);
}

#[test]
fn decode_rejects_out_of_range_id() {
    let line = "{\"id\":18446744073709551616,\"name\":null,\"output\":null,\"is_active\":false,\"is_focused\":false}";
    assert_eq!(decode_workspace(line), None);
    let max = "{\"id\":18446744073709551615,\"name\":null,\"output\":null,\"is_active\":false,\"is_focused\":false}";
    assert_eq!(decode_workspace(max), Some(ws(u64::MAX, None, None, false, false)));
}

#[test]
fn decode_accepts_short_escapes() {
    let line = "{\"Err\":\"a\\nb\\tc\\\"d\\\\e\\u0001f\"}";
    assert_eq!(
        decode_reply(line),
        Some(Err("a\nb\tc\"d\\e\u{1}f".to_owned()))
    );
}

#[test]
fn encoding_is_valid_json_for_serde() {
    let w = ws(11, Some("a\"b\\c\nd\u{2}"), Some("DP-3"), true, false);
    let line = encode_workspace(&w);
    let v: serde_json::Value = serde_json::from_str(&line).expect("valid JSON");
    assert_eq!(v.get("id").and_then(serde_json::Value::as_u64), Some(11));
    assert_eq!(
        v.get("name").and_then(serde_json::Value::as_str),
        Some("a\"b\\c\nd\u{2}")
    );
    assert_eq!(v.get("output").and_then(serde_json::Value::as_str), Some("DP-3"));
    assert_eq!(v.get("is_active").and_then(serde_json::Value::as_bool), Some(true));
    assert_eq!(v.get("is_focused").and_then(serde_json::Value::as_bool), Some(false));
}

#[test]
fn event_encoding_is_valid_json_for_serde() {
    let e = Event::WorkspaceActivated { id: 4, focused: true };
    let line = encode_event(&e);
    let v: serde_json::Value = serde_json::from_str(&line).expect("valid JSON");
    let inner = v.get("WorkspaceActivated").expect("tagged variant");
    assert_eq!(inner.get("id").and_then(serde_json::Value::as_u64), Some(4));
    assert_eq!(inner.get("focused").and_then(serde_json::Value::as_bool), Some(true));
}
