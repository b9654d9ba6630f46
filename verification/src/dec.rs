//! Decoding of the line-delimited JSON wire form back into wire-model
//! values.
//!
//! The spec functions (`sd_request`, `sd_workspace`, ...) define, for
//! every character sequence and start position, what a decoder returns:
//! the decoded value and the position just past its encoding, or nothing.
//! They accept the compact form that `enc` produces (plus the usual short
//! string escapes), with insignificant trailing whitespace allowed at the
//! top level only. Every executable parser is proved to return exactly
//! what its spec function says, so the round-trip laws in `round_trip`
//! carry over to the executable codec.

use vstd::prelude::*;
use crate::text::{
    chars_to_string, digit_val, digit_val_ex, hex_val, hex_val_ex, is_digit, is_digit_ex, is_hex,
    is_hex_ex, is_ws, is_ws_ex, expect, seg, str_to_chars,
};
use crate::wire::{
    Action, ActionV, Event, EventV, RefV, Reply, ReplyV, Request, RequestV, Response, ResponseV,
    Workspace, WorkspaceReferenceArg, WorkspaceV, opt_str_view, reply_view, wss_view,
};

verus! {

/// Prepend one decoded character to the result of a string-body decode.
pub open spec fn sd_cons(c: char, r: Option<(Seq<char>, int)>) -> Option<(Seq<char>, int)> {
    match r {
        Some((t, j)) => Some((seq![c] + t, j)),
        None => None,
    }
}

/// Decode the body of a JSON string, from just after the opening quote
/// up to and including the closing quote.
pub open spec fn sd_str_body(s: Seq<char>, i: int) -> Option<(Seq<char>, int)>
    decreases s.len() - i,
{
    if !(0 <= i < s.len()) {
        None
    } else {
        let c = s[i];
        if c == '"' {
            Some((Seq::empty(), i + 1))
        } else if c == '\\' {
            if i + 1 < s.len() {
                let e = s[i + 1];
                if e == '"' {
                    sd_cons('"', sd_str_body(s, i + 2))
                } else if e == '\\' {
                    sd_cons('\\', sd_str_body(s, i + 2))
                } else if e == '/' {
                    sd_cons('/', sd_str_body(s, i + 2))
                } else if e == 'n' {
                    sd_cons('\n', sd_str_body(s, i + 2))
                } else if e == 't' {
                    sd_cons('\t', sd_str_body(s, i + 2))
                } else if e == 'r' {
                    sd_cons('\r', sd_str_body(s, i + 2))
                } else if e == 'b' {
                    sd_cons('\u{8}', sd_str_body(s, i + 2))
                } else if e == 'f' {
                    sd_cons('\u{c}', sd_str_body(s, i + 2))
                } else if e == 'u' {
                    if i + 5 < s.len() && s[i + 2] == '0' && s[i + 3] == '0' && is_hex(s[i + 4])
                        && is_hex(s[i + 5]) {
                        let v = 16 * hex_val(s[i + 4]) + hex_val(s[i + 5]);
                        sd_cons((v as u8) as char, sd_str_body(s, i + 6))
                    } else {
                        None
                    }
                } else {
                    None
                }
            } else {
                None
            }
        } else if c as u32 >= 0x20 {
            sd_cons(c, sd_str_body(s, i + 1))
        } else {
            None
        }
    }
}

/// Decode a JSON string literal.
pub open spec fn sd_string(s: Seq<char>, i: int) -> Option<(Seq<char>, int)> {
    if 0 <= i < s.len() && s[i] == '"' {
        sd_str_body(s, i + 1)
    } else {
        None
    }
}

/// Decode a run of decimal digits into `acc`, rejecting values that do
/// not fit a `u64`.
pub open spec fn sd_num(s: Seq<char>, i: int, acc: u64) -> Option<(u64, int)>
    decreases s.len() - i,
{
    if 0 <= i < s.len() && is_digit(s[i]) {
        let d = digit_val(s[i]);
        if acc * 10 + d <= u64::MAX {
            sd_num(s, i + 1, (acc * 10 + d) as u64)
        } else {
            None
        }
    } else {
        Some((acc, i))
    }
}

/// Decode a JSON number as an unsigned 64-bit integer.
pub open spec fn sd_u64(s: Seq<char>, i: int) -> Option<(u64, int)> {
    if 0 <= i < s.len() && is_digit(s[i]) {
        sd_num(s, i, 0)
    } else {
        None
    }
}

/// Decode a JSON boolean.
pub open spec fn sd_bool(s: Seq<char>, i: int) -> Option<(bool, int)> {
    if seg(s, i, "true"@) {
        Some((true, i + "true"@.len()))
    } else if seg(s, i, "false"@) {
        Some((false, i + "false"@.len()))
    } else {
        None
    }
}

/// Decode an optional string field: `null` or a string literal.
pub open spec fn sd_opt_str(s: Seq<char>, i: int) -> Option<(Option<Seq<char>>, int)> {
    if seg(s, i, "null"@) {
        Some((None, i + "null"@.len()))
    } else {
        match sd_string(s, i) {
            Some((v, j)) => Some((Some(v), j)),
            None => None,
        }
    }
}

/// Decode a workspace record, fields in declaration order.
pub open spec fn sd_workspace(s: Seq<char>, i: int) -> Option<(WorkspaceV, int)> {
    if seg(s, i, "{\"id\":"@) {
        match sd_u64(s, i + "{\"id\":"@.len()) {
            Some((id, j1)) => if seg(s, j1, ",\"name\":"@) {
                match sd_opt_str(s, j1 + ",\"name\":"@.len()) {
                    Some((name, j2)) => if seg(s, j2, ",\"output\":"@) {
                        match sd_opt_str(s, j2 + ",\"output\":"@.len()) {
                            Some((output, j3)) => if seg(s, j3, ",\"is_active\":"@) {
                                match sd_bool(s, j3 + ",\"is_active\":"@.len()) {
                                    Some((act, j4)) => if seg(s, j4, ",\"is_focused\":"@) {
                                        match sd_bool(s, j4 + ",\"is_focused\":"@.len()) {
                                            Some((foc, j5)) => if seg(s, j5, "}"@) {
                                                Some(
                                                    (
                                                        WorkspaceV {
                                                            id,
                                                            name,
                                                            output,
                                                            is_active: act,
                                                            is_focused: foc,
                                                        },
                                                        j5 + "}"@.len(),
                                                    ),
                                                )
                                            } else {
                                                None
                                            },
                                            None => None,
                                        }
                                    } else {
                                        None
                                    },
                                    None => None,
                                }
                            } else {
                                None
                            },
                            None => None,
                        }
                    } else {
                        None
                    },
                    None => None,
                }
            } else {
                None
            },
            None => None,
        }
    } else {
        None
    }
}

/// Decode the tail of a workspace list: either the closing bracket, or a
/// comma followed by one more record and the rest of the tail.
pub open spec fn sd_ws_more(s: Seq<char>, i: int, acc: Seq<WorkspaceV>) -> Option<
    (Seq<WorkspaceV>, int),
>
    decreases s.len() - i,
{
    if !(0 <= i < s.len()) {
        None
    } else if s[i] == ']' {
        Some((acc, i + 1))
    } else if s[i] == ',' {
        match sd_workspace(s, i + 1) {
            Some((w, j)) => if i < j <= s.len() {
                sd_ws_more(s, j, acc.push(w))
            } else {
                None
            },
            None => None,
        }
    } else {
        None
    }
}

/// Decode a workspace list.
pub open spec fn sd_ws_list(s: Seq<char>, i: int) -> Option<(Seq<WorkspaceV>, int)> {
    if 0 <= i < s.len() && s[i] == '[' {
        if i + 1 < s.len() && s[i + 1] == ']' {
            Some((Seq::empty(), i + 2))
        } else {
            match sd_workspace(s, i + 1) {
                Some((w, j)) => if i + 1 < j <= s.len() {
                    sd_ws_more(s, j, seq![w])
                } else {
                    None
                },
                None => None,
            }
        }
    } else {
        None
    }
}

/// Decode a workspace reference.
pub open spec fn sd_reference(s: Seq<char>, i: int) -> Option<(RefV, int)> {
    if seg(s, i, "{\"Id\":"@) {
        match sd_u64(s, i + "{\"Id\":"@.len()) {
            Some((n, j)) => if seg(s, j, "}"@) {
                Some((RefV::Id(n), j + "}"@.len()))
            } else {
                None
            },
            None => None,
        }
    } else if seg(s, i, "{\"Name\":"@) {
        match sd_string(s, i + "{\"Name\":"@.len()) {
            Some((v, j)) => if seg(s, j, "}"@) {
                Some((RefV::Name(v), j + "}"@.len()))
            } else {
                None
            },
            None => None,
        }
    } else {
        None
    }
}

/// Decode an action.
pub open spec fn sd_action(s: Seq<char>, i: int) -> Option<(ActionV, int)> {
    if seg(s, i, "{\"FocusWorkspace\":{\"reference\":"@) {
        match sd_reference(s, i + "{\"FocusWorkspace\":{\"reference\":"@.len()) {
            Some((r, j)) => if seg(s, j, "}}"@) {
                Some((ActionV::FocusWorkspace { reference: r }, j + "}}"@.len()))
            } else {
                None
            },
            None => None,
        }
    } else {
        None
    }
}

/// Decode a request.
pub open spec fn sd_request(s: Seq<char>, i: int) -> Option<(RequestV, int)> {
    if seg(s, i, "{\"Action\":"@) {
        match sd_action(s, i + "{\"Action\":"@.len()) {
            Some((a, j)) => if seg(s, j, "}"@) {
                Some((RequestV::Action(a), j + "}"@.len()))
            } else {
                None
            },
            None => None,
        }
    } else if seg(s, i, "\"EventStream\""@) {
        Some((RequestV::EventStream, i + "\"EventStream\""@.len()))
    } else {
        None
    }
}

/// Decode a response.
pub open spec fn sd_response(s: Seq<char>, i: int) -> Option<(ResponseV, int)> {
    if seg(s, i, "\"Handled\""@) {
        Some((ResponseV::Handled, i + "\"Handled\""@.len()))
    } else if seg(s, i, "{\"Workspaces\":"@) {
        match sd_ws_list(s, i + "{\"Workspaces\":"@.len()) {
            Some((ws, j)) => if seg(s, j, "}"@) {
                Some((ResponseV::Workspaces(ws), j + "}"@.len()))
            } else {
                None
            },
            None => None,
        }
    } else {
        None
    }
}

/// Decode a reply.
pub open spec fn sd_reply(s: Seq<char>, i: int) -> Option<(ReplyV, int)> {
    if seg(s, i, "{\"Ok\":"@) {
        match sd_response(s, i + "{\"Ok\":"@.len()) {
            Some((resp, j)) => if seg(s, j, "}"@) {
                Some((Ok(resp), j + "}"@.len()))
            } else {
                None
            },
            None => None,
        }
    } else if seg(s, i, "{\"Err\":"@) {
        match sd_string(s, i + "{\"Err\":"@.len()) {
            Some((e, j)) => if seg(s, j, "}"@) {
                Some((Err(e), j + "}"@.len()))
            } else {
                None
            },
            None => None,
        }
    } else {
        None
    }
}

/// Decode an event.
pub open spec fn sd_event(s: Seq<char>, i: int) -> Option<(EventV, int)> {
    if seg(s, i, "{\"WorkspacesChanged\":{\"workspaces\":"@) {
        match sd_ws_list(s, i + "{\"WorkspacesChanged\":{\"workspaces\":"@.len()) {
            Some((ws, j)) => if seg(s, j, "}}"@) {
                Some((EventV::WorkspacesChanged { workspaces: ws }, j + "}}"@.len()))
            } else {
                None
            },
            None => None,
        }
    } else if seg(s, i, "{\"WorkspaceActivated\":{\"id\":"@) {
        match sd_u64(s, i + "{\"WorkspaceActivated\":{\"id\":"@.len()) {
            Some((id, j)) => if seg(s, j, ",\"focused\":"@) {
                match sd_bool(s, j + ",\"focused\":"@.len()) {
                    Some((foc, j2)) => if seg(s, j2, "}}"@) {
                        Some((EventV::WorkspaceActivated { id, focused: foc }, j2 + "}}"@.len()))
                    } else {
                        None
                    },
                    None => None,
                }
            } else {
                None
            },
            None => None,
        }
    } else if seg(s, i, "\"Other\""@) {
        Some((EventV::Other, i + "\"Other\""@.len()))
    } else {
        None
    }
}

/// Only whitespace from `j` to the end.
pub open spec fn ws_from(s: Seq<char>, j: int) -> bool {
    forall|k: int| j <= k < s.len() ==> is_ws(#[trigger] s[k])
}

/// What decoding a whole request line yields.
pub open spec fn spec_decode_request(s: Seq<char>) -> Option<RequestV> {
    match sd_request(s, 0) {
        Some((v, j)) => if ws_from(s, j) {
            Some(v)
        } else {
            None
        },
        None => None,
    }
}

/// What decoding a whole workspace line yields.
pub open spec fn spec_decode_workspace(s: Seq<char>) -> Option<WorkspaceV> {
    match sd_workspace(s, 0) {
        Some((v, j)) => if ws_from(s, j) {
            Some(v)
        } else {
            None
        },
        None => None,
    }
}

/// What decoding a whole response line yields.
pub open spec fn spec_decode_response(s: Seq<char>) -> Option<ResponseV> {
    match sd_response(s, 0) {
        Some((v, j)) => if ws_from(s, j) {
            Some(v)
        } else {
            None
        },
        None => None,
    }
}

/// What decoding a whole reply line yields.
pub open spec fn spec_decode_reply(s: Seq<char>) -> Option<ReplyV> {
    match sd_reply(s, 0) {
        Some((v, j)) => if ws_from(s, j) {
            Some(v)
        } else {
            None
        },
        None => None,
    }
}

/// What decoding a whole event line yields.
pub open spec fn spec_decode_event(s: Seq<char>) -> Option<EventV> {
    match sd_event(s, 0) {
        Some((v, j)) => if ws_from(s, j) {
            Some(v)
        } else {
            None
        },
        None => None,
    }
}

/// String-body parser; mirrors `sd_str_body`.
fn p_str_body(s: &Vec<char>, i: usize) -> (r: Option<(Vec<char>, usize)>)
    ensures
        match (r, sd_str_body(s@, i as int)) {
            (Some((v, j)), Some((sv, sj))) => v@ == sv && j as int == sj,
            (None, None) => true,
            _ => false,
        },
    decreases s@.len() - i,
{
    let n: usize = s.len();
    if i >= n {
        return None;
    }
    let c: char = s[i];
    if c == '"' {
        let empty: Vec<char> = Vec::new();
        assert(empty@ =~= Seq::<char>::empty());
        return Some((empty, i + 1));
    }
    if c == '\\' {
        if n - i < 2 {
            return None;
        }
        let e: char = s[i + 1];
        if e == 'u' {
            if n - i < 6 {
                return None;
            }
            let h1: char = s[i + 4];
            let h2: char = s[i + 5];
            if !(s[i + 2] == '0' && s[i + 3] == '0' && is_hex_ex(h1) && is_hex_ex(h2)) {
                return None;
            }
            let v: u32 = 16 * hex_val_ex(h1) + hex_val_ex(h2);
            let ch: char = (v as u8) as char;
            match p_str_body(s, i + 6) {
                Some((mut t, j)) => {
                    let ghost t0 = t@;
                    t.insert(0, ch);
                    assert(t@ =~= seq![ch] + t0);
                    Some((t, j))
                },
                None => None,
            }
        } else {
            let dec: Option<char> = if e == '"' {
                Some('"')
            } else if e == '\\' {
                Some('\\')
            } else if e == '/' {
                Some('/')
            } else if e == 'n' {
                Some('\n')
            } else if e == 't' {
                Some('\t')
            } else if e == 'r' {
                Some('\r')
            } else if e == 'b' {
                Some('\u{8}')
            } else if e == 'f' {
                Some('\u{c}')
            } else {
                None
            };
            match dec {
                Some(ch) => match p_str_body(s, i + 2) {
                    Some((mut t, j)) => {
                        let ghost t0 = t@;
                        t.insert(0, ch);
                        assert(t@ =~= seq![ch] + t0);
                        Some((t, j))
                    },
                    None => None,
                },
                None => None,
            }
        }
    } else if c as u32 >= 0x20 {
        match p_str_body(s, i + 1) {
            Some((mut t, j)) => {
                let ghost t0 = t@;
                t.insert(0, c);
                assert(t@ =~= seq![c] + t0);
                Some((t, j))
            },
            None => None,
        }
    } else {
        None
    }
}

/// String parser; mirrors `sd_string`.
fn p_string(s: &Vec<char>, i: usize) -> (r: Option<(String, usize)>)
    ensures
        match (r, sd_string(s@, i as int)) {
            (Some((v, j)), Some((sv, sj))) => v@ == sv && j as int == sj,
            (None, None) => true,
            _ => false,
        },
{
    if i < s.len() && s[i] == '"' {
        match p_str_body(s, i + 1) {
            Some((t, j)) => Some((chars_to_string(&t), j)),
            None => None,
        }
    } else {
        None
    }
}

/// Digit-run parser; mirrors `sd_num`.
fn p_num(s: &Vec<char>, i: usize, acc: u64) -> (r: Option<(u64, usize)>)
    ensures
        match (r, sd_num(s@, i as int, acc)) {
            (Some((v, j)), Some((sv, sj))) => v == sv && j as int == sj,
            (None, None) => true,
            _ => false,
        },
    decreases s@.len() - i,
{
    let n: usize = s.len();
    if i < n && is_digit_ex(s[i]) {
        let d: u32 = digit_val_ex(s[i]);
        match acc.checked_mul(10) {
            Some(m) => match m.checked_add(d as u64) {
                Some(a2) => p_num(s, i + 1, a2),
                None => None,
            },
            None => None,
        }
    } else {
        Some((acc, i))
    }
}

/// Number parser; mirrors `sd_u64`.
fn p_u64(s: &Vec<char>, i: usize) -> (r: Option<(u64, usize)>)
    ensures
        match (r, sd_u64(s@, i as int)) {
            (Some((v, j)), Some((sv, sj))) => v == sv && j as int == sj,
            (None, None) => true,
            _ => false,
        },
{
    if i < s.len() && is_digit_ex(s[i]) {
        p_num(s, i, 0)
    } else {
        None
    }
}

/// Boolean parser; mirrors `sd_bool`.
fn p_bool(s: &Vec<char>, i: usize) -> (r: Option<(bool, usize)>)
    ensures
        match (r, sd_bool(s@, i as int)) {
            (Some((v, j)), Some((sv, sj))) => v == sv && j as int == sj,
            (None, None) => true,
            _ => false,
        },
{
    match expect(s, i, "true") {
        Some(j) => Some((true, j)),
        None => match expect(s, i, "false") {
            Some(j) => Some((false, j)),
            None => None,
        },
    }
}

/// Optional-string parser; mirrors `sd_opt_str`.
fn p_opt_str(s: &Vec<char>, i: usize) -> (r: Option<(Option<String>, usize)>)
    ensures
        match (r, sd_opt_str(s@, i as int)) {
            (Some((v, j)), Some((sv, sj))) => opt_str_view(v) == sv && j as int == sj,
            (None, None) => true,
            _ => false,
        },
{
    match expect(s, i, "null") {
        Some(j) => Some((None, j)),
        None => match p_string(s, i) {
            Some((v, j)) => Some((Some(v), j)),
            None => None,
        },
    }
}

/// Workspace parser; mirrors `sd_workspace`.
fn p_workspace(s: &Vec<char>, i: usize) -> (r: Option<(Workspace, usize)>)
    ensures
        match (r, sd_workspace(s@, i as int)) {
            (Some((v, j)), Some((sv, sj))) => v@ == sv && j as int == sj,
            (None, None) => true,
            _ => false,
        },
{
    let i1: usize = match expect(s, i, "{\"id\":") {
        Some(j) => j,
        None => {
            return None;
        },
    };
    let (id, j1): (u64, usize) = match p_u64(s, i1) {
        Some(p) => p,
        None => {
            return None;
        },
    };
    let i2: usize = match expect(s, j1, ",\"name\":") {
        Some(j) => j,
        None => {
            return None;
        },
    };
    let (name, j2): (Option<String>, usize) = match p_opt_str(s, i2) {
        Some(p) => p,
        None => {
            return None;
        },
    };
    let i3: usize = match expect(s, j2, ",\"output\":") {
        Some(j) => j,
        None => {
            return None;
        },
    };
    let (output, j3): (Option<String>, usize) = match p_opt_str(s, i3) {
        Some(p) => p,
        None => {
            return None;
        },
    };
    let i4: usize = match expect(s, j3, ",\"is_active\":") {
        Some(j) => j,
        None => {
            return None;
        },
    };
    let (act, j4): (bool, usize) = match p_bool(s, i4) {
        Some(p) => p,
        None => {
            return None;
        },
    };
    let i5: usize = match expect(s, j4, ",\"is_focused\":") {
        Some(j) => j,
        None => {
            return None;
        },
    };
    let (foc, j5): (bool, usize) = match p_bool(s, i5) {
        Some(p) => p,
        None => {
            return None;
        },
    };
    let end: usize = match expect(s, j5, "}") {
        Some(j) => j,
        None => {
            return None;
        },
    };
    let w = Workspace { id, name, output, is_active: act, is_focused: foc };
    Some((w, end))
}

/// Workspace-list-tail parser; mirrors `sd_ws_more`.
fn p_ws_more(s: &Vec<char>, i: usize, acc: Vec<Workspace>) -> (r: Option<(Vec<Workspace>, usize)>)
    ensures
        match (r, sd_ws_more(s@, i as int, wss_view(acc@))) {
            (Some((v, j)), Some((sv, sj))) => wss_view(v@) == sv && j as int == sj,
            (None, None) => true,
            _ => false,
        },
    decreases s@.len() - i,
{
    let n: usize = s.len();
    if i >= n {
        return None;
    }
    if s[i] == ']' {
        return Some((acc, i + 1));
    }
    if s[i] == ',' {
        match p_workspace(s, i + 1) {
            Some((w, j)) => {
                if i < j && j <= n {
                    let ghost accv = wss_view(acc@);
                    let ghost wv = w@;
                    let mut acc2 = acc;
                    acc2.push(w);
                    assert(wss_view(acc2@) =~= accv.push(wv));
                    p_ws_more(s, j, acc2)
                } else {
                    None
                }
            },
            None => None,
        }
    } else {
        None
    }
}

/// Workspace-list parser; mirrors `sd_ws_list`.
fn p_ws_list(s: &Vec<char>, i: usize) -> (r: Option<(Vec<Workspace>, usize)>)
    ensures
        match (r, sd_ws_list(s@, i as int)) {
            (Some((v, j)), Some((sv, sj))) => wss_view(v@) == sv && j as int == sj,
            (None, None) => true,
            _ => false,
        },
{
    let n: usize = s.len();
    if i < n && s[i] == '[' {
        if i + 1 < n && s[i + 1] == ']' {
            let empty: Vec<Workspace> = Vec::new();
            assert(wss_view(empty@) =~= Seq::<WorkspaceV>::empty());
            return Some((empty, i + 2));
        }
        match p_workspace(s, i + 1) {
            Some((w, j)) => {
                if i + 1 < j && j <= n {
                    let ghost wv = w@;
                    let mut acc: Vec<Workspace> = Vec::new();
                    acc.push(w);
                    assert(wss_view(acc@) =~= seq![wv]);
                    p_ws_more(s, j, acc)
                } else {
                    None
                }
            },
            None => None,
        }
    } else {
        None
    }
}

/// Reference parser; mirrors `sd_reference`.
fn p_reference(s: &Vec<char>, i: usize) -> (r: Option<(WorkspaceReferenceArg, usize)>)
    ensures
        match (r, sd_reference(s@, i as int)) {
            (Some((v, j)), Some((sv, sj))) => v@ == sv && j as int == sj,
            (None, None) => true,
            _ => false,
        },
{
    match expect(s, i, "{\"Id\":") {
        Some(i1) => match p_u64(s, i1) {
            Some((nv, j)) => match expect(s, j, "}") {
                Some(end) => Some((WorkspaceReferenceArg::Id(nv), end)),
                None => None,
            },
            None => None,
        },
        None => match expect(s, i, "{\"Name\":") {
            Some(i1) => match p_string(s, i1) {
                Some((v, j)) => match expect(s, j, "}") {
                    Some(end) => Some((WorkspaceReferenceArg::Name(v), end)),
                    None => None,
                },
                None => None,
            },
            None => None,
        },
    }
}

/// Action parser; mirrors `sd_action`.
fn p_action(s: &Vec<char>, i: usize) -> (r: Option<(Action, usize)>)
    ensures
        match (r, sd_action(s@, i as int)) {
            (Some((v, j)), Some((sv, sj))) => v@ == sv && j as int == sj,
            (None, None) => true,
            _ => false,
        },
{
    match expect(s, i, "{\"FocusWorkspace\":{\"reference\":") {
        Some(i1) => match p_reference(s, i1) {
            Some((rf, j)) => match expect(s, j, "}}") {
                Some(end) => Some((Action::FocusWorkspace { reference: rf }, end)),
                None => None,
            },
            None => None,
        },
        None => None,
    }
}

/// Request parser; mirrors `sd_request`.
fn p_request(s: &Vec<char>, i: usize) -> (r: Option<(Request, usize)>)
    ensures
        match (r, sd_request(s@, i as int)) {
            (Some((v, j)), Some((sv, sj))) => v@ == sv && j as int == sj,
            (None, None) => true,
            _ => false,
        },
{
    match expect(s, i, "{\"Action\":") {
        Some(i1) => match p_action(s, i1) {
            Some((a, j)) => match expect(s, j, "}") {
                Some(end) => Some((Request::Action(a), end)),
                None => None,
            },
            None => None,
        },
        None => match expect(s, i, "\"EventStream\"") {
            Some(end) => Some((Request::EventStream, end)),
            None => None,
        },
    }
}

/// Response parser; mirrors `sd_response`.
fn p_response(s: &Vec<char>, i: usize) -> (r: Option<(Response, usize)>)
    ensures
        match (r, sd_response(s@, i as int)) {
            (Some((v, j)), Some((sv, sj))) => v@ == sv && j as int == sj,
            (None, None) => true,
            _ => false,
        },
{
    match expect(s, i, "\"Handled\"") {
        Some(end) => Some((Response::Handled, end)),
        None => match expect(s, i, "{\"Workspaces\":") {
            Some(i1) => match p_ws_list(s, i1) {
                Some((ws, j)) => match expect(s, j, "}") {
                    Some(end) => Some((Response::Workspaces(ws), end)),
                    None => None,
                },
                None => None,
            },
            None => None,
        },
    }
}

/// Reply parser; mirrors `sd_reply`.
fn p_reply(s: &Vec<char>, i: usize) -> (r: Option<(Reply, usize)>)
    ensures
        match (r, sd_reply(s@, i as int)) {
            (Some((v, j)), Some((sv, sj))) => reply_view(v) == sv && j as int == sj,
            (None, None) => true,
            _ => false,
        },
{
    match expect(s, i, "{\"Ok\":") {
        Some(i1) => match p_response(s, i1) {
            Some((resp, j)) => match expect(s, j, "}") {
                Some(end) => Some((Ok(resp), end)),
                None => None,
            },
            None => None,
        },
        None => match expect(s, i, "{\"Err\":") {
            Some(i1) => match p_string(s, i1) {
                Some((e, j)) => match expect(s, j, "}") {
                    Some(end) => Some((Err(e), end)),
                    None => None,
                },
                None => None,
            },
            None => None,
        },
    }
}

/// Event parser; mirrors `sd_event`.
fn p_event(s: &Vec<char>, i: usize) -> (r: Option<(Event, usize)>)
    ensures
        match (r, sd_event(s@, i as int)) {
            (Some((v, j)), Some((sv, sj))) => v@ == sv && j as int == sj,
            (None, None) => true,
            _ => false,
        },
{
    match expect(s, i, "{\"WorkspacesChanged\":{\"workspaces\":") {
        Some(i1) => match p_ws_list(s, i1) {
            Some((ws, j)) => match expect(s, j, "}}") {
                Some(end) => Some((Event::WorkspacesChanged { workspaces: ws }, end)),
                None => None,
            },
            None => None,
        },
        None => match expect(s, i, "{\"WorkspaceActivated\":{\"id\":") {
            Some(i1) => match p_u64(s, i1) {
                Some((id, j)) => match expect(s, j, ",\"focused\":") {
                    Some(i2) => match p_bool(s, i2) {
                        Some((foc, j2)) => match expect(s, j2, "}}") {
                            Some(end) => Some(
                                (Event::WorkspaceActivated { id, focused: foc }, end),
                            ),
                            None => None,
                        },
                        None => None,
                    },
                    None => None,
                },
                None => None,
            },
            None => match expect(s, i, "\"Other\"") {
                Some(end) => Some((Event::Other, end)),
                None => None,
            },
        },
    }
}

/// Only whitespace from `j` on, executable form.
fn ws_from_ex(s: &Vec<char>, j: usize) -> (r: bool)
    ensures
        r == ws_from(s@, j as int),
{
    let n: usize = s.len();
    let mut k: usize = j;
    if k > n {
        k = n;
    }
    while k < n
        invariant
            j <= k <= n || (j > n && k == n),
            n == s@.len(),
            forall|m: int| j <= m < k ==> is_ws(#[trigger] s@[m]),
        decreases n - k,
    {
        if !is_ws_ex(s[k]) {
            assert(!ws_from(s@, j as int));
            return false;
        }
        k = k + 1;
    }
    true
}

/// Decode one line as a request. Yields the request exactly when the
/// line is a canonical request encoding (with only trailing whitespace
/// after it), and nothing otherwise.
pub fn decode_request(s: &str) -> (r: Option<Request>)
    ensures
        match (r, spec_decode_request(s@)) {
            (Some(v), Some(sv)) => v@ == sv,
            (None, None) => true,
            _ => false,
        },
{
    let cs: Vec<char> = str_to_chars(s);
    match p_request(&cs, 0) {
        Some((v, j)) => if ws_from_ex(&cs, j) {
            Some(v)
        } else {
            None
        },
        None => None,
    }
}

/// Decode one line as a workspace record.
pub fn decode_workspace(s: &str) -> (r: Option<Workspace>)
    ensures
        match (r, spec_decode_workspace(s@)) {
            (Some(v), Some(sv)) => v@ == sv,
            (None, None) => true,
            _ => false,
        },
{
    let cs: Vec<char> = str_to_chars(s);
    match p_workspace(&cs, 0) {
        Some((v, j)) => if ws_from_ex(&cs, j) {
            Some(v)
        } else {
            None
        },
        None => None,
    }
}

/// Decode one line as a response.
pub fn decode_response(s: &str) -> (r: Option<Response>)
    ensures
        match (r, spec_decode_response(s@)) {
            (Some(v), Some(sv)) => v@ == sv,
            (None, None) => true,
            _ => false,
        },
{
    let cs: Vec<char> = str_to_chars(s);
    match p_response(&cs, 0) {
        Some((v, j)) => if ws_from_ex(&cs, j) {
            Some(v)
        } else {
            None
        },
        None => None,
    }
}

/// Decode one line as a reply.
pub fn decode_reply(s: &str) -> (r: Option<Reply>)
    ensures
        match (r, spec_decode_reply(s@)) {
            (Some(v), Some(sv)) => reply_view(v) == sv,
            (None, None) => true,
            _ => false,
        },
{
    let cs: Vec<char> = str_to_chars(s);
    match p_reply(&cs, 0) {
        Some((v, j)) => if ws_from_ex(&cs, j) {
            Some(v)
        } else {
            None
        },
        None => None,
    }
}

/// Decode one line as an event.
pub fn decode_event(s: &str) -> (r: Option<Event>)
    ensures
        match (r, spec_decode_event(s@)) {
            (Some(v), Some(sv)) => v@ == sv,
            (None, None) => true,
            _ => false,
        },
{
    let cs: Vec<char> = str_to_chars(s);
    match p_event(&cs, 0) {
        Some((v, j)) => if ws_from_ex(&cs, j) {
            Some(v)
        } else {
            None
        },
        None => None,
    }
}

} // verus!
