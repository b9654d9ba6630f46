//! Encoding of wire-model values into the line-delimited JSON wire form.
//!
//! The spec functions (`enc_request`, `enc_workspace`, ...) define the
//! canonical encoding of each type as a character sequence: tagged
//! variants are objects whose discriminant field selects the variant,
//! unit variants are bare strings, struct fields appear in declaration
//! order, and strings escape `"`, `\` and control characters. The
//! executable encoders are proved to produce exactly that form.

use vstd::prelude::*;
use crate::text::{append_lit, chars_to_string, dec_seq, hex_char, hex_char_ex, u64_to_dec};
use crate::wire::{
    Action, ActionV, Event, EventV, RefV, Reply, ReplyV, Request, RequestV, Response, ResponseV,
    Workspace, WorkspaceReferenceArg, WorkspaceV, opt_str_view, reply_view, wss_view,
};

verus! {

/// The encoding of one character inside a JSON string: `"` and `\` take
/// a two-character escape, control characters take a `\u00XX` escape,
/// every other character stands for itself.
pub open spec fn esc_char(c: char) -> Seq<char> {
    if c == '"' {
        seq!['\\', '"']
    } else if c == '\\' {
        seq!['\\', '\\']
    } else if (c as u32) < 0x20 {
        seq!['\\', 'u', '0', '0', hex_char((c as u32 / 16) as nat), hex_char(
            (c as u32 % 16) as nat,
        )]
    } else {
        seq![c]
    }
}

/// The escaped body of a JSON string.
pub open spec fn esc_seq(s: Seq<char>) -> Seq<char>
    decreases s.len(),
{
    if s.len() == 0 {
        Seq::empty()
    } else {
        esc_char(s[0]) + esc_seq(s.skip(1))
    }
}

/// A JSON string literal: quote, escaped body, quote.
pub open spec fn enc_string(s: Seq<char>) -> Seq<char> {
    seq!['"'] + esc_seq(s) + seq!['"']
}

/// A JSON boolean.
pub open spec fn enc_bool(b: bool) -> Seq<char> {
    if b {
        "true"@
    } else {
        "false"@
    }
}

/// An optional string field: `null` when absent.
pub open spec fn enc_opt_str(o: Option<Seq<char>>) -> Seq<char> {
    match o {
        Some(s) => enc_string(s),
        None => "null"@,
    }
}

/// A workspace record, fields in declaration order.
pub open spec fn enc_workspace(w: WorkspaceV) -> Seq<char> {
    "{\"id\":"@ + dec_seq(w.id as nat) + ",\"name\":"@ + enc_opt_str(w.name) + ",\"output\":"@
        + enc_opt_str(w.output) + ",\"is_active\":"@ + enc_bool(w.is_active) + ",\"is_focused\":"@
        + enc_bool(w.is_focused) + "}"@
}

/// The tail of a workspace list: each further record behind a comma,
/// then the closing bracket.
pub open spec fn enc_ws_more(t: Seq<WorkspaceV>) -> Seq<char>
    decreases t.len(),
{
    if t.len() == 0 {
        "]"@
    } else {
        ","@ + enc_workspace(t[0]) + enc_ws_more(t.skip(1))
    }
}

/// A workspace list.
pub open spec fn enc_ws_list(ws: Seq<WorkspaceV>) -> Seq<char> {
    if ws.len() == 0 {
        "[]"@
    } else {
        "["@ + enc_workspace(ws[0]) + enc_ws_more(ws.skip(1))
    }
}

/// A workspace reference.
pub open spec fn enc_reference(r: RefV) -> Seq<char> {
    match r {
        RefV::Id(n) => "{\"Id\":"@ + dec_seq(n as nat) + "}"@,
        RefV::Name(s) => "{\"Name\":"@ + enc_string(s) + "}"@,
    }
}

/// An action.
pub open spec fn enc_action(a: ActionV) -> Seq<char> {
    match a {
        ActionV::FocusWorkspace { reference } => "{\"FocusWorkspace\":{\"reference\":"@
            + enc_reference(reference) + "}}"@,
    }
}

/// A request.
pub open spec fn enc_request(r: RequestV) -> Seq<char> {
    match r {
        RequestV::Action(a) => "{\"Action\":"@ + enc_action(a) + "}"@,
        RequestV::EventStream => "\"EventStream\""@,
    }
}

/// A response.
pub open spec fn enc_response(r: ResponseV) -> Seq<char> {
    match r {
        ResponseV::Handled => "\"Handled\""@,
        ResponseV::Workspaces(ws) => "{\"Workspaces\":"@ + enc_ws_list(ws) + "}"@,
    }
}

/// A reply: the far end's `Ok`/`Err` result carrying a response or an
/// opaque error string.
pub open spec fn enc_reply(r: ReplyV) -> Seq<char> {
    match r {
        Ok(resp) => "{\"Ok\":"@ + enc_response(resp) + "}"@,
        Err(e) => "{\"Err\":"@ + enc_string(e) + "}"@,
    }
}

/// An event.
pub open spec fn enc_event(e: EventV) -> Seq<char> {
    match e {
        EventV::WorkspacesChanged { workspaces } => "{\"WorkspacesChanged\":{\"workspaces\":"@
            + enc_ws_list(workspaces) + "}}"@,
        EventV::WorkspaceActivated { id, focused } => "{\"WorkspaceActivated\":{\"id\":"@
            + dec_seq(id as nat) + ",\"focused\":"@ + enc_bool(focused) + "}}"@,
        EventV::Other => "\"Other\""@,
    }
}

/// The sequence holds no newline: it fits on one wire line.
pub open spec fn no_newline(s: Seq<char>) -> bool {
    forall|k: int| 0 <= k < s.len() ==> #[trigger] s[k] != '\n'
}

proof fn lemma_no_newline_concat(a: Seq<char>, b: Seq<char>)
    requires
        no_newline(a),
        no_newline(b),
    ensures
        no_newline(a + b),
{
    assert forall|k: int| 0 <= k < (a + b).len() implies #[trigger] (a + b)[k] != '\n' by {
        if k < a.len() {
            assert((a + b)[k] == a[k]);
        } else {
            assert((a + b)[k] == b[k - a.len()]);
        }
    }
}

proof fn lemma_no_newline_esc_char(c: char)
    ensures
        no_newline(esc_char(c)),
{
}

proof fn lemma_no_newline_esc_seq(s: Seq<char>)
    ensures
        no_newline(esc_seq(s)),
    decreases s.len(),
{
    if s.len() == 0 {
    } else {
        lemma_no_newline_esc_char(s[0]);
        lemma_no_newline_esc_seq(s.skip(1));
        lemma_no_newline_concat(esc_char(s[0]), esc_seq(s.skip(1)));
    }
}

proof fn lemma_no_newline_string(s: Seq<char>)
    ensures
        no_newline(enc_string(s)),
{
    lemma_no_newline_esc_seq(s);
    lemma_no_newline_concat(seq!['"'], esc_seq(s));
    lemma_no_newline_concat(seq!['"'] + esc_seq(s), seq!['"']);
}

proof fn lemma_no_newline_dec(n: nat)
    ensures
        no_newline(dec_seq(n)),
{
    crate::text::lemma_dec_seq_digits(n);
    assert forall|k: int| 0 <= k < dec_seq(n).len() implies #[trigger] dec_seq(n)[k] != '\n' by {
        assert(crate::text::is_digit(dec_seq(n)[k]));
    }
}

proof fn lemma_no_newline_reference(r: RefV)
    ensures
        no_newline(enc_reference(r)),
{
    reveal_strlit("{\"Id\":");
    reveal_strlit("{\"Name\":");
    reveal_strlit("}");
    assert(no_newline("{\"Id\":"@));
    assert(no_newline("{\"Name\":"@));
    assert(no_newline("}"@));
    match r {
        RefV::Id(n) => {
            lemma_no_newline_dec(n as nat);
            lemma_no_newline_concat("{\"Id\":"@, dec_seq(n as nat));
            lemma_no_newline_concat("{\"Id\":"@ + dec_seq(n as nat), "}"@);
        },
        RefV::Name(s) => {
            lemma_no_newline_string(s);
            lemma_no_newline_concat("{\"Name\":"@, enc_string(s));
            lemma_no_newline_concat("{\"Name\":"@ + enc_string(s), "}"@);
        },
    }
}

/// The framed request is a single wire line: its encoding holds no
/// newline, so writing it and then closing the write direction puts
/// exactly one complete document on the wire.
pub proof fn lemma_request_line_is_single(v: RequestV)
    ensures
        no_newline(enc_request(v)),
{
    reveal_strlit("{\"Action\":");
    reveal_strlit("{\"FocusWorkspace\":{\"reference\":");
    reveal_strlit("}}");
    reveal_strlit("}");
    reveal_strlit("\"EventStream\"");
    assert(no_newline("{\"Action\":"@));
    assert(no_newline("{\"FocusWorkspace\":{\"reference\":"@));
    assert(no_newline("}}"@));
    assert(no_newline("}"@));
    assert(no_newline("\"EventStream\""@));
    match v {
        RequestV::Action(a) => {
            match a {
                ActionV::FocusWorkspace { reference } => {
                    lemma_no_newline_reference(reference);
                    lemma_no_newline_concat(
                        "{\"FocusWorkspace\":{\"reference\":"@,
                        enc_reference(reference),
                    );
                    lemma_no_newline_concat(
                        "{\"FocusWorkspace\":{\"reference\":"@ + enc_reference(reference),
                        "}}"@,
                    );
                    lemma_no_newline_concat("{\"Action\":"@, enc_action(a));
                    lemma_no_newline_concat("{\"Action\":"@ + enc_action(a), "}"@);
                },
            }
        },
        RequestV::EventStream => {
        },
    }
}

/// Escaping distributes over concatenation.
pub proof fn lemma_esc_append(a: Seq<char>, b: Seq<char>)
    ensures
        esc_seq(a + b) == esc_seq(a) + esc_seq(b),
    decreases a.len(),
{
    if a.len() == 0 {
        assert(a + b =~= b);
        assert(esc_seq(a) + esc_seq(b) =~= esc_seq(b));
    } else {
        assert((a + b).skip(1) =~= a.skip(1) + b);
        lemma_esc_append(a.skip(1), b);
        assert(esc_seq(a + b) =~= esc_seq(a) + esc_seq(b));
    }
}

/// Escaping one more character extends the escaped prefix.
pub proof fn lemma_esc_snoc(s: Seq<char>, i: int)
    requires
        0 <= i < s.len(),
    ensures
        esc_seq(s.take(i + 1)) == esc_seq(s.take(i)) + esc_char(s[i]),
{
    assert(s.take(i + 1) =~= s.take(i) + seq![s[i]]);
    lemma_esc_append(s.take(i), seq![s[i]]);
    assert(esc_seq(seq![s[i]].skip(1)) == Seq::<char>::empty());
    assert(esc_char(s[i]) + Seq::<char>::empty() =~= esc_char(s[i]));
}

/// Append the escaped form of one character.
fn push_esc_char(out: &mut Vec<char>, c: char)
    ensures
        final(out)@ == old(out)@ + esc_char(c),
{
    if c == '"' {
        out.push('\\');
        out.push('"');
        assert(out@ =~= old(out)@ + esc_char(c));
    } else if c == '\\' {
        out.push('\\');
        out.push('\\');
        assert(out@ =~= old(out)@ + esc_char(c));
    } else {
        let u: u32 = c as u32;
        if u < 0x20 {
            out.push('\\');
            out.push('u');
            out.push('0');
            out.push('0');
            out.push(hex_char_ex(u / 16));
            out.push(hex_char_ex(u % 16));
            assert(out@ =~= old(out)@ + esc_char(c));
        } else {
            out.push(c);
            assert(out@ =~= old(out)@ + esc_char(c));
        }
    }
}

/// Append a JSON string literal for `s`.
fn push_json_string(out: &mut Vec<char>, s: &str)
    ensures
        final(out)@ == old(out)@ + enc_string(s@),
{
    out.push('"');
    let n: usize = s.unicode_len();
    let mut i: usize = 0;
    while i < n
        invariant
            n == s@.len(),
            0 <= i <= n,
            out@ == old(out)@ + seq!['"'] + esc_seq(s@.take(i as int)),
        decreases n - i,
    {
        let c: char = s.get_char(i);
        push_esc_char(out, c);
        proof {
            lemma_esc_snoc(s@, i as int);
        }
        assert(out@ =~= old(out)@ + seq!['"'] + esc_seq(s@.take(i + 1 as int)));
        i = i + 1;
    }
    out.push('"');
    assert(s@.take(n as int) =~= s@);
    assert(out@ =~= old(out)@ + enc_string(s@));
}

/// Append the canonical decimal form of `n`.
fn push_u64(out: &mut Vec<char>, n: u64)
    ensures
        final(out)@ == old(out)@ + dec_seq(n as nat),
{
    let mut d: Vec<char> = u64_to_dec(n);
    out.append(&mut d);
}

/// Append a JSON boolean.
fn push_bool(out: &mut Vec<char>, b: bool)
    ensures
        final(out)@ == old(out)@ + enc_bool(b),
{
    if b {
        append_lit(out, "true");
    } else {
        append_lit(out, "false");
    }
}

/// Append an optional string field.
fn push_opt_string(out: &mut Vec<char>, o: &Option<String>)
    ensures
        final(out)@ == old(out)@ + enc_opt_str(opt_str_view(*o)),
{
    match o {
        Some(s) => push_json_string(out, s.as_str()),
        None => append_lit(out, "null"),
    }
}

/// Append the encoding of one workspace record.
fn push_workspace(out: &mut Vec<char>, w: &Workspace)
    ensures
        final(out)@ == old(out)@ + enc_workspace(w@),
{
    append_lit(out, "{\"id\":");
    push_u64(out, w.id);
    append_lit(out, ",\"name\":");
    push_opt_string(out, &w.name);
    append_lit(out, ",\"output\":");
    push_opt_string(out, &w.output);
    append_lit(out, ",\"is_active\":");
    push_bool(out, w.is_active);
    append_lit(out, ",\"is_focused\":");
    push_bool(out, w.is_focused);
    append_lit(out, "}");
    assert(out@ =~= old(out)@ + enc_workspace(w@));
}

/// Append the tail of a workspace list from index `k` on.
fn push_ws_more(out: &mut Vec<char>, ws: &Vec<Workspace>, k: usize)
    requires
        k <= ws@.len(),
    ensures
        final(out)@ == old(out)@ + enc_ws_more(wss_view(ws@).skip(k as int)),
    decreases ws@.len() - k,
{
    if k == ws.len() {
        append_lit(out, "]");
        assert(wss_view(ws@).skip(k as int).len() == 0);
        assert(out@ =~= old(out)@ + enc_ws_more(wss_view(ws@).skip(k as int)));
    } else {
        append_lit(out, ",");
        push_workspace(out, &ws[k]);
        push_ws_more(out, ws, k + 1);
        proof {
            let t = wss_view(ws@).skip(k as int);
            assert(t[0] == wss_view(ws@)[k as int]);
            assert(t.skip(1) =~= wss_view(ws@).skip(k + 1 as int));
            assert(out@ =~= old(out)@ + enc_ws_more(t));
        }
    }
}

/// Append the encoding of a workspace list.
fn push_ws_list(out: &mut Vec<char>, ws: &Vec<Workspace>)
    ensures
        final(out)@ == old(out)@ + enc_ws_list(wss_view(ws@)),
{
    if ws.len() == 0 {
        append_lit(out, "[]");
        assert(wss_view(ws@).len() == 0);
    } else {
        append_lit(out, "[");
        push_workspace(out, &ws[0]);
        push_ws_more(out, ws, 1);
        proof {
            assert(wss_view(ws@)[0] == ws@[0]@);
            assert(out@ =~= old(out)@ + enc_ws_list(wss_view(ws@)));
        }
    }
}

/// Append the encoding of a workspace reference.
fn push_reference(out: &mut Vec<char>, r: &WorkspaceReferenceArg)
    ensures
        final(out)@ == old(out)@ + enc_reference(r@),
{
    match r {
        WorkspaceReferenceArg::Id(n) => {
            append_lit(out, "{\"Id\":");
            push_u64(out, *n);
            append_lit(out, "}");
            assert(out@ =~= old(out)@ + enc_reference(r@));
        },
        WorkspaceReferenceArg::Name(s) => {
            append_lit(out, "{\"Name\":");
            push_json_string(out, s.as_str());
            append_lit(out, "}");
            assert(out@ =~= old(out)@ + enc_reference(r@));
        },
    }
}

/// Append the encoding of an action.
fn push_action(out: &mut Vec<char>, a: &Action)
    ensures
        final(out)@ == old(out)@ + enc_action(a@),
{
    match a {
        Action::FocusWorkspace { reference } => {
            append_lit(out, "{\"FocusWorkspace\":{\"reference\":");
            push_reference(out, reference);
            append_lit(out, "}}");
            assert(out@ =~= old(out)@ + enc_action(a@));
        },
    }
}

/// Encode a request for the wire: the single line written before the
/// write direction is closed (without a trailing newline).
pub fn encode_request(r: &Request) -> (s: String)
    ensures
        s@ == enc_request(r@),
{
    let mut out: Vec<char> = Vec::new();
    match r {
        Request::Action(a) => {
            append_lit(&mut out, "{\"Action\":");
            push_action(&mut out, a);
            append_lit(&mut out, "}");
            assert(out@ =~= enc_request(r@));
        },
        Request::EventStream => {
            append_lit(&mut out, "\"EventStream\"");
            assert(out@ =~= enc_request(r@));
        },
    }
    chars_to_string(&out)
}

/// Encode a workspace record.
pub fn encode_workspace(w: &Workspace) -> (s: String)
    ensures
        s@ == enc_workspace(w@),
{
    let mut out: Vec<char> = Vec::new();
    push_workspace(&mut out, w);
    assert(out@ =~= enc_workspace(w@));
    chars_to_string(&out)
}

/// Append the encoding of a response.
fn push_response(out: &mut Vec<char>, r: &Response)
    ensures
        final(out)@ == old(out)@ + enc_response(r@),
{
    match r {
        Response::Handled => {
            append_lit(out, "\"Handled\"");
        },
        Response::Workspaces(ws) => {
            append_lit(out, "{\"Workspaces\":");
            push_ws_list(out, ws);
            append_lit(out, "}");
            assert(out@ =~= old(out)@ + enc_response(r@));
        },
    }
}

/// Encode a response.
pub fn encode_response(r: &Response) -> (s: String)
    ensures
        s@ == enc_response(r@),
{
    let mut out: Vec<char> = Vec::new();
    push_response(&mut out, r);
    assert(out@ =~= enc_response(r@));
    chars_to_string(&out)
}

/// Encode a reply, as the far end would frame it.
pub fn encode_reply(r: &Reply) -> (s: String)
    ensures
        s@ == enc_reply(reply_view(*r)),
{
    let mut out: Vec<char> = Vec::new();
    match r {
        Ok(resp) => {
            append_lit(&mut out, "{\"Ok\":");
            push_response(&mut out, resp);
            append_lit(&mut out, "}");
            assert(out@ =~= enc_reply(reply_view(*r)));
        },
        Err(e) => {
            append_lit(&mut out, "{\"Err\":");
            push_json_string(&mut out, e.as_str());
            append_lit(&mut out, "}");
            assert(out@ =~= enc_reply(reply_view(*r)));
        },
    }
    chars_to_string(&out)
}

/// Encode an event.
pub fn encode_event(e: &Event) -> (s: String)
    ensures
        s@ == enc_event(e@),
{
    let mut out: Vec<char> = Vec::new();
    match e {
        Event::WorkspacesChanged { workspaces } => {
            append_lit(&mut out, "{\"WorkspacesChanged\":{\"workspaces\":");
            push_ws_list(&mut out, workspaces);
            append_lit(&mut out, "}}");
            assert(out@ =~= enc_event(e@));
        },
        Event::WorkspaceActivated { id, focused } => {
            append_lit(&mut out, "{\"WorkspaceActivated\":{\"id\":");
            push_u64(&mut out, *id);
            append_lit(&mut out, ",\"focused\":");
            push_bool(&mut out, *focused);
            append_lit(&mut out, "}}");
            assert(out@ =~= enc_event(e@));
        },
        Event::Other => {
            append_lit(&mut out, "\"Other\"");
            assert(out@ =~= enc_event(e@));
        },
    }
    chars_to_string(&out)
}

} // verus!
