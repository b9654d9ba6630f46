//! The round-trip laws of the codec: decoding a canonical encoding
//! yields the encoded value.
//!
//! Each lemma here says of one wire type: wherever its encoding occurs
//! as a segment of a character sequence, the spec decoder started at
//! that segment returns exactly the encoded value and stops just past
//! the segment. The public lemmas at the end state the laws for whole
//! lines; through the contracts of `enc` and `dec` they carry over to
//! the executable codec.

use vstd::prelude::*;
use crate::text::{
    dec_seq, digit_val, hex_val, is_digit, is_hex, lemma_dec_seq_digits, lemma_hex_char_val,
    lemma_pow10_pos, lemma_seg_index, lemma_seg_split, lemma_val_dec, pow10, seg, val_digits,
};
use crate::enc::{
    enc_action, enc_bool, enc_event, enc_opt_str, enc_reference, enc_reply, enc_request,
    enc_response, enc_string, enc_workspace, enc_ws_list, enc_ws_more, esc_char, esc_seq,
};
use crate::dec::{
    sd_action, sd_bool, sd_cons, sd_event, sd_num, sd_opt_str, sd_reference, sd_reply, sd_request,
    sd_response, sd_str_body, sd_string, sd_u64, sd_workspace, sd_ws_list, sd_ws_more, ws_from,
    spec_decode_event, spec_decode_reply, spec_decode_request, spec_decode_response,
    spec_decode_workspace,
};
use crate::wire::{ActionV, EventV, RefV, ReplyV, RequestV, ResponseV, WorkspaceV};

verus! {

/// Parsing a run of digits accumulates its value.
proof fn lemma_sd_num_digits(s: Seq<char>, i: int, acc: u64, d: Seq<char>)
    requires
        seg(s, i, d),
        forall|k: int| 0 <= k < d.len() ==> is_digit(#[trigger] d[k]),
        i + d.len() == s.len() || !is_digit(s[i + d.len()]),
        acc * pow10(d.len() as nat) + val_digits(d) <= u64::MAX,
    ensures
        sd_num(s, i, acc) == Some::<(u64, int)>(
            ((acc * pow10(d.len() as nat) + val_digits(d)) as u64, i + d.len()),
        ),
    decreases d.len(),
{
    if d.len() == 0 {
        assert(sd_num(s, i, acc) == Some::<(u64, int)>((acc, i)));
        assert(acc * 1 + 0 == acc);
    } else {
        lemma_seg_index(s, i, d, 0);
        assert(s[i] == d[0]);
        assert(is_digit(s[i]));
        let dv0 = digit_val(d[0]);
        let p = pow10((d.len() - 1) as nat);
        lemma_pow10_pos((d.len() - 1) as nat);
        assert(pow10(d.len() as nat) == 10 * p);
        assert(acc * (10 * p) == (acc * 10) * p) by (nonlinear_arith);
        assert(dv0 * p >= dv0 * 1) by (nonlinear_arith)
            requires
                p >= 1,
                dv0 >= 0,
        ;
        assert((acc * 10 + dv0) * p == (acc * 10) * p + dv0 * p) by (nonlinear_arith);
        assert(val_digits(d) == dv0 * p + val_digits(d.skip(1)));
        assert((acc * 10) * p >= (acc * 10) * 1) by (nonlinear_arith)
            requires
                p >= 1,
                acc >= 0,
        ;
        assert(acc * 10 + dv0 <= acc * pow10(d.len() as nat) + val_digits(d));
        let acc2: u64 = (acc * 10 + dv0) as u64;
        assert(d =~= seq![d[0]] + d.skip(1));
        lemma_seg_split(s, i, seq![d[0]], d.skip(1));
        assert(seg(s, i + 1, d.skip(1)));
        assert(forall|k: int| 0 <= k < d.skip(1).len() ==> is_digit(#[trigger] d.skip(1)[k]));
        assert(acc2 * pow10(d.skip(1).len() as nat) + val_digits(d.skip(1)) == acc * pow10(
            d.len() as nat,
        ) + val_digits(d));
        lemma_sd_num_digits(s, i + 1, acc2, d.skip(1));
        assert(sd_num(s, i, acc) == sd_num(s, i + 1, acc2));
    }
}

/// Parsing the canonical decimal form of `n` yields `n`.
proof fn lemma_sd_dec(s: Seq<char>, i: int, n: u64)
    requires
        seg(s, i, dec_seq(n as nat)),
        i + dec_seq(n as nat).len() == s.len() || !is_digit(s[i + dec_seq(n as nat).len()]),
    ensures
        sd_u64(s, i) == Some::<(u64, int)>((n, i + dec_seq(n as nat).len())),
{
    lemma_dec_seq_digits(n as nat);
    lemma_val_dec(n as nat);
    lemma_seg_index(s, i, dec_seq(n as nat), 0);
    assert(is_digit(s[i]));
    lemma_pow10_pos(dec_seq(n as nat).len() as nat);
    lemma_sd_num_digits(s, i, 0, dec_seq(n as nat));
}

/// Parsing an escaped string body, closing quote included, yields the
/// original string.
proof fn lemma_sd_str_body(s: Seq<char>, i: int, v: Seq<char>)
    requires
        seg(s, i, esc_seq(v) + seq!['"']),
    ensures
        sd_str_body(s, i) == Some::<(Seq<char>, int)>((v, i + esc_seq(v).len() + 1)),
    decreases v.len(),
{
    if v.len() == 0 {
        assert(esc_seq(v) + seq!['"'] =~= seq!['"']);
        lemma_seg_index(s, i, seq!['"'], 0);
        assert(sd_str_body(s, i) == Some::<(Seq<char>, int)>((Seq::empty(), i + 1)));
        assert(v =~= Seq::<char>::empty());
    } else {
        let c0 = v[0];
        let e = esc_char(c0);
        let rest = esc_seq(v.skip(1)) + seq!['"'];
        assert(esc_seq(v) + seq!['"'] =~= e + rest);
        lemma_seg_split(s, i, e, rest);
        lemma_sd_str_body(s, i + e.len(), v.skip(1));
        assert(seq![c0] + v.skip(1) =~= v);
        if c0 == '"' {
            lemma_seg_index(s, i, e, 0);
            lemma_seg_index(s, i, e, 1);
            assert(sd_str_body(s, i) == sd_cons('"', sd_str_body(s, i + 2)));
        } else if c0 == '\\' {
            lemma_seg_index(s, i, e, 0);
            lemma_seg_index(s, i, e, 1);
            assert(sd_str_body(s, i) == sd_cons('\\', sd_str_body(s, i + 2)));
        } else if (c0 as u32) < 0x20 {
            let hi = (c0 as u32 / 16) as nat;
            let lo = (c0 as u32 % 16) as nat;
            lemma_hex_char_val(hi);
            lemma_hex_char_val(lo);
            lemma_seg_index(s, i, e, 0);
            lemma_seg_index(s, i, e, 1);
            lemma_seg_index(s, i, e, 2);
            lemma_seg_index(s, i, e, 3);
            lemma_seg_index(s, i, e, 4);
            lemma_seg_index(s, i, e, 5);
            assert(s[i] == '\\' && s[i + 1] == 'u' && s[i + 2] == '0' && s[i + 3] == '0');
            assert(is_hex(s[i + 4]) && is_hex(s[i + 5]));
            assert(16 * hex_val(s[i + 4]) + hex_val(s[i + 5]) == c0 as u32);
            vstd::utf8::char_u32_cast(c0, c0 as u32);
            assert((((c0 as u32) as u8) as char) == c0);
            assert(sd_str_body(s, i) == sd_cons(c0, sd_str_body(s, i + 6)));
        } else {
            lemma_seg_index(s, i, e, 0);
            assert(s[i] == c0);
            assert(sd_str_body(s, i) == sd_cons(c0, sd_str_body(s, i + 1)));
        }
    }
}

/// Parsing a canonical string literal yields the original string.
proof fn lemma_sd_string(s: Seq<char>, i: int, v: Seq<char>)
    requires
        seg(s, i, enc_string(v)),
    ensures
        sd_string(s, i) == Some::<(Seq<char>, int)>((v, i + enc_string(v).len())),
{
    assert(enc_string(v) =~= seq!['"'] + (esc_seq(v) + seq!['"']));
    lemma_seg_split(s, i, seq!['"'], esc_seq(v) + seq!['"']);
    lemma_seg_index(s, i, seq!['"'], 0);
    lemma_sd_str_body(s, i + 1, v);
}

/// Parsing a canonical boolean yields the original value.
proof fn lemma_sd_bool(s: Seq<char>, i: int, b: bool)
    requires
        seg(s, i, enc_bool(b)),
    ensures
        sd_bool(s, i) == Some::<(bool, int)>((b, i + enc_bool(b).len())),
{
    reveal_strlit("true");
    reveal_strlit("false");
    if b {
    } else {
        assert(!seg(s, i, "true"@)) by {
            if seg(s, i, "true"@) {
                lemma_seg_index(s, i, "true"@, 0);
                lemma_seg_index(s, i, "false"@, 0);
            }
        }
    }
}

/// A workspace encoding begins with an opening brace.
proof fn lemma_enc_workspace_first(w: WorkspaceV)
    ensures
        enc_workspace(w).len() > 0,
        enc_workspace(w)[0] == '{',
{
    reveal_strlit("{\"id\":");
    assert(enc_workspace(w)[0] == "{\"id\":"@[0]);
}

/// Parsing a canonical optional string yields the original value.
proof fn lemma_sd_opt_str(s: Seq<char>, i: int, o: Option<Seq<char>>)
    requires
        seg(s, i, enc_opt_str(o)),
    ensures
        sd_opt_str(s, i) == Some::<(Option<Seq<char>>, int)>((o, i + enc_opt_str(o).len())),
{
    reveal_strlit("null");
    match o {
        None => {
        },
        Some(v) => {
            assert(!seg(s, i, "null"@)) by {
                if seg(s, i, "null"@) {
                    lemma_seg_index(s, i, "null"@, 0);
                    lemma_seg_index(s, i, enc_string(v), 0);
                }
            }
            lemma_sd_string(s, i, v);
        },
    }
}

/// Parsing a canonical workspace record yields the original record.
#[verifier::rlimit(60)]
proof fn lemma_sd_workspace(s: Seq<char>, i: int, w: WorkspaceV)
    requires
        seg(s, i, enc_workspace(w)),
    ensures
        sd_workspace(s, i) == Some::<(WorkspaceV, int)>((w, i + enc_workspace(w).len())),
{
    reveal_strlit("{\"id\":");
    reveal_strlit(",\"name\":");
    reveal_strlit(",\"output\":");
    reveal_strlit(",\"is_active\":");
    reveal_strlit(",\"is_focused\":");
    reveal_strlit("}");
    let l1 = "{\"id\":"@;
    let p1 = dec_seq(w.id as nat);
    let l2 = ",\"name\":"@;
    let p2 = enc_opt_str(w.name);
    let l3 = ",\"output\":"@;
    let p3 = enc_opt_str(w.output);
    let l4 = ",\"is_active\":"@;
    let p4 = enc_bool(w.is_active);
    let l5 = ",\"is_focused\":"@;
    let p5 = enc_bool(w.is_focused);
    let l6 = "}"@;
    let t5 = p5 + l6;
    let t4 = l5 + t5;
    let t3b = p4 + t4;
    let t3 = l4 + t3b;
    let t2b = p3 + t3;
    let t2 = l3 + t2b;
    let t1b = p2 + t2;
    let t1 = l2 + t1b;
    let t0b = p1 + t1;
    assert(enc_workspace(w) =~= l1 + t0b);
    lemma_seg_split(s, i, l1, t0b);
    let i1 = i + l1.len();
    lemma_seg_split(s, i1, p1, t1);
    let j1 = i1 + p1.len();
    lemma_seg_index(s, j1, t1, 0);
    assert(t1[0] == ',');
    assert(!is_digit(s[j1]));
    lemma_sd_dec(s, i1, w.id);
    lemma_seg_split(s, j1, l2, t1b);
    let i2 = j1 + l2.len();
    lemma_seg_split(s, i2, p2, t2);
    let j2 = i2 + p2.len();
    lemma_sd_opt_str(s, i2, w.name);
    lemma_seg_split(s, j2, l3, t2b);
    let i3 = j2 + l3.len();
    lemma_seg_split(s, i3, p3, t3);
    let j3 = i3 + p3.len();
    lemma_sd_opt_str(s, i3, w.output);
    lemma_seg_split(s, j3, l4, t3b);
    let i4 = j3 + l4.len();
    lemma_seg_split(s, i4, p4, t4);
    let j4 = i4 + p4.len();
    lemma_sd_bool(s, i4, w.is_active);
    lemma_seg_split(s, j4, l5, t5);
    let i5 = j4 + l5.len();
    lemma_seg_split(s, i5, p5, l6);
    let j5 = i5 + p5.len();
    lemma_sd_bool(s, i5, w.is_focused);
    let built = WorkspaceV {
        id: w.id,
        name: w.name,
        output: w.output,
        is_active: w.is_active,
        is_focused: w.is_focused,
    };
    assert(built =~= w);
    assert(sd_workspace(s, i) == Some::<(WorkspaceV, int)>((built, j5 + l6.len())));
    assert(j5 + l6.len() == i + enc_workspace(w).len());
}

/// Parsing the canonical tail of a workspace list appends its records.
proof fn lemma_sd_ws_more(s: Seq<char>, i: int, t: Seq<WorkspaceV>, acc: Seq<WorkspaceV>)
    requires
        seg(s, i, enc_ws_more(t)),
    ensures
        sd_ws_more(s, i, acc) == Some::<(Seq<WorkspaceV>, int)>(
            (acc + t, i + enc_ws_more(t).len()),
        ),
    decreases t.len(),
{
    reveal_strlit("]");
    reveal_strlit(",");
    if t.len() == 0 {
        lemma_seg_index(s, i, "]"@, 0);
        assert(s[i] == ']');
        assert(acc + t =~= acc);
    } else {
        let lw = enc_workspace(t[0]);
        let rest = enc_ws_more(t.skip(1));
        assert(enc_ws_more(t) =~= ","@ + (lw + rest));
        lemma_seg_split(s, i, ","@, lw + rest);
        let i1 = i + ","@.len();
        assert(i1 == i + 1);
        lemma_seg_split(s, i1, lw, rest);
        lemma_seg_index(s, i, ","@, 0);
        assert(s[i] == ',');
        lemma_sd_workspace(s, i1, t[0]);
        let j = i1 + lw.len();
        lemma_sd_ws_more(s, j, t.skip(1), acc.push(t[0]));
        assert(acc.push(t[0]) + t.skip(1) =~= acc + t);
        assert(sd_ws_more(s, i, acc) == sd_ws_more(s, j, acc.push(t[0])));
        assert(j + rest.len() == i + enc_ws_more(t).len());
    }
}

/// Parsing a canonical workspace list yields the original list.
proof fn lemma_sd_ws_list(s: Seq<char>, i: int, ws: Seq<WorkspaceV>)
    requires
        seg(s, i, enc_ws_list(ws)),
    ensures
        sd_ws_list(s, i) == Some::<(Seq<WorkspaceV>, int)>((ws, i + enc_ws_list(ws).len())),
{
    reveal_strlit("[");
    reveal_strlit("[]");
    if ws.len() == 0 {
        lemma_seg_index(s, i, "[]"@, 0);
        lemma_seg_index(s, i, "[]"@, 1);
        assert(s[i] == '[' && s[i + 1] == ']');
        assert(Seq::<WorkspaceV>::empty() =~= ws);
    } else {
        let lw = enc_workspace(ws[0]);
        let rest = enc_ws_more(ws.skip(1));
        assert(enc_ws_list(ws) =~= "["@ + (lw + rest));
        lemma_seg_split(s, i, "["@, lw + rest);
        let i1 = i + "["@.len();
        assert(i1 == i + 1);
        lemma_seg_split(s, i1, lw, rest);
        lemma_seg_index(s, i, "["@, 0);
        assert(s[i] == '[');
        lemma_enc_workspace_first(ws[0]);
        lemma_seg_index(s, i1, lw, 0);
        assert(s[i + 1] == '{');
        lemma_sd_workspace(s, i1, ws[0]);
        let j = i1 + lw.len();
        lemma_sd_ws_more(s, j, ws.skip(1), seq![ws[0]]);
        assert(seq![ws[0]] + ws.skip(1) =~= ws);
        assert(j + rest.len() == i + enc_ws_list(ws).len());
    }
}

/// Parsing a canonical workspace reference yields the original value.
proof fn lemma_sd_reference(s: Seq<char>, i: int, r: RefV)
    requires
        seg(s, i, enc_reference(r)),
    ensures
        sd_reference(s, i) == Some::<(RefV, int)>((r, i + enc_reference(r).len())),
{
    reveal_strlit("{\"Id\":");
    reveal_strlit("{\"Name\":");
    reveal_strlit("}");
    match r {
        RefV::Id(n) => {
            let l1 = "{\"Id\":"@;
            let p1 = dec_seq(n as nat);
            let l2 = "}"@;
            assert(enc_reference(r) =~= l1 + (p1 + l2));
            lemma_seg_split(s, i, l1, p1 + l2);
            let i1 = i + l1.len();
            lemma_seg_split(s, i1, p1, l2);
            let j = i1 + p1.len();
            lemma_seg_index(s, j, l2, 0);
            assert(!is_digit(s[j]));
            lemma_sd_dec(s, i1, n);
        },
        RefV::Name(v) => {
            let l1 = "{\"Name\":"@;
            let p1 = enc_string(v);
            let l2 = "}"@;
            assert(enc_reference(r) =~= l1 + (p1 + l2));
            lemma_seg_split(s, i, l1, p1 + l2);
            let i1 = i + l1.len();
            lemma_seg_split(s, i1, p1, l2);
            assert(!seg(s, i, "{\"Id\":"@)) by {
                if seg(s, i, "{\"Id\":"@) {
                    lemma_seg_index(s, i, "{\"Id\":"@, 2);
                    lemma_seg_index(s, i, "{\"Name\":"@, 2);
                }
            }
            lemma_sd_string(s, i1, v);
        },
    }
}

/// Parsing a canonical action yields the original value.
proof fn lemma_sd_action(s: Seq<char>, i: int, a: ActionV)
    requires
        seg(s, i, enc_action(a)),
    ensures
        sd_action(s, i) == Some::<(ActionV, int)>((a, i + enc_action(a).len())),
{
    reveal_strlit("{\"FocusWorkspace\":{\"reference\":");
    reveal_strlit("}}");
    match a {
        ActionV::FocusWorkspace { reference } => {
            let l1 = "{\"FocusWorkspace\":{\"reference\":"@;
            let p1 = enc_reference(reference);
            let l2 = "}}"@;
            assert(enc_action(a) =~= l1 + (p1 + l2));
            lemma_seg_split(s, i, l1, p1 + l2);
            let i1 = i + l1.len();
            lemma_seg_split(s, i1, p1, l2);
            lemma_sd_reference(s, i1, reference);
        },
    }
}

/// Parsing a canonical request yields the original value.
proof fn lemma_sd_request(s: Seq<char>, i: int, v: RequestV)
    requires
        seg(s, i, enc_request(v)),
    ensures
        sd_request(s, i) == Some::<(RequestV, int)>((v, i + enc_request(v).len())),
{
    reveal_strlit("{\"Action\":");
    reveal_strlit("\"EventStream\"");
    reveal_strlit("}");
    match v {
        RequestV::Action(a) => {
            let l1 = "{\"Action\":"@;
            let p1 = enc_action(a);
            let l2 = "}"@;
            assert(enc_request(v) =~= l1 + (p1 + l2));
            lemma_seg_split(s, i, l1, p1 + l2);
            let i1 = i + l1.len();
            lemma_seg_split(s, i1, p1, l2);
            lemma_sd_action(s, i1, a);
        },
        RequestV::EventStream => {
            assert(!seg(s, i, "{\"Action\":"@)) by {
                if seg(s, i, "{\"Action\":"@) {
                    lemma_seg_index(s, i, "{\"Action\":"@, 0);
                    lemma_seg_index(s, i, "\"EventStream\""@, 0);
                }
            }
        },
    }
}

/// Parsing a canonical response yields the original value.
proof fn lemma_sd_response(s: Seq<char>, i: int, v: ResponseV)
    requires
        seg(s, i, enc_response(v)),
    ensures
        sd_response(s, i) == Some::<(ResponseV, int)>((v, i + enc_response(v).len())),
{
    reveal_strlit("\"Handled\"");
    reveal_strlit("{\"Workspaces\":");
    reveal_strlit("}");
    match v {
        ResponseV::Handled => {
        },
        ResponseV::Workspaces(ws) => {
            let l1 = "{\"Workspaces\":"@;
            let p1 = enc_ws_list(ws);
            let l2 = "}"@;
            assert(enc_response(v) =~= l1 + (p1 + l2));
            lemma_seg_split(s, i, l1, p1 + l2);
            let i1 = i + l1.len();
            lemma_seg_split(s, i1, p1, l2);
            assert(!seg(s, i, "\"Handled\""@)) by {
                if seg(s, i, "\"Handled\""@) {
                    lemma_seg_index(s, i, "\"Handled\""@, 0);
                    lemma_seg_index(s, i, "{\"Workspaces\":"@, 0);
                }
            }
            lemma_sd_ws_list(s, i1, ws);
        },
    }
}

/// Parsing a canonical reply yields the original value.
proof fn lemma_sd_reply(s: Seq<char>, i: int, v: ReplyV)
    requires
        seg(s, i, enc_reply(v)),
    ensures
        sd_reply(s, i) == Some::<(ReplyV, int)>((v, i + enc_reply(v).len())),
{
    reveal_strlit("{\"Ok\":");
    reveal_strlit("{\"Err\":");
    reveal_strlit("}");
    match v {
        Ok(resp) => {
            let l1 = "{\"Ok\":"@;
            let p1 = enc_response(resp);
            let l2 = "}"@;
            assert(enc_reply(v) =~= l1 + (p1 + l2));
            lemma_seg_split(s, i, l1, p1 + l2);
            let i1 = i + l1.len();
            lemma_seg_split(s, i1, p1, l2);
            lemma_sd_response(s, i1, resp);
        },
        Err(e) => {
            let l1 = "{\"Err\":"@;
            let p1 = enc_string(e);
            let l2 = "}"@;
            assert(enc_reply(v) =~= l1 + (p1 + l2));
            lemma_seg_split(s, i, l1, p1 + l2);
            let i1 = i + l1.len();
            lemma_seg_split(s, i1, p1, l2);
            assert(!seg(s, i, "{\"Ok\":"@)) by {
                if seg(s, i, "{\"Ok\":"@) {
                    lemma_seg_index(s, i, "{\"Ok\":"@, 2);
                    lemma_seg_index(s, i, "{\"Err\":"@, 2);
                }
            }
            lemma_sd_string(s, i1, e);
        },
    }
}

/// Parsing a canonical event yields the original value.
proof fn lemma_sd_event(s: Seq<char>, i: int, v: EventV)
    requires
        seg(s, i, enc_event(v)),
    ensures
        sd_event(s, i) == Some::<(EventV, int)>((v, i + enc_event(v).len())),
{
    reveal_strlit("{\"WorkspacesChanged\":{\"workspaces\":");
    reveal_strlit("{\"WorkspaceActivated\":{\"id\":");
    reveal_strlit(",\"focused\":");
    reveal_strlit("\"Other\"");
    reveal_strlit("}}");
    match v {
        EventV::WorkspacesChanged { workspaces } => {
            let l1 = "{\"WorkspacesChanged\":{\"workspaces\":"@;
            let p1 = enc_ws_list(workspaces);
            let l2 = "}}"@;
            assert(enc_event(v) =~= l1 + (p1 + l2));
            lemma_seg_split(s, i, l1, p1 + l2);
            let i1 = i + l1.len();
            lemma_seg_split(s, i1, p1, l2);
            lemma_sd_ws_list(s, i1, workspaces);
        },
        EventV::WorkspaceActivated { id, focused } => {
            let l1 = "{\"WorkspaceActivated\":{\"id\":"@;
            let p1 = dec_seq(id as nat);
            let l2 = ",\"focused\":"@;
            let p2 = enc_bool(focused);
            let l3 = "}}"@;
            let t2 = p2 + l3;
            let t1 = l2 + t2;
            let t0 = p1 + t1;
            assert(enc_event(v) =~= l1 + t0);
            lemma_seg_split(s, i, l1, t0);
            let i1 = i + l1.len();
            lemma_seg_split(s, i1, p1, t1);
            let j1 = i1 + p1.len();
            lemma_seg_index(s, j1, t1, 0);
            assert(t1[0] == ',');
            assert(!is_digit(s[j1]));
            lemma_sd_dec(s, i1, id);
            lemma_seg_split(s, j1, l2, t2);
            let i2 = j1 + l2.len();
            lemma_seg_split(s, i2, p2, l3);
            lemma_sd_bool(s, i2, focused);
            assert(!seg(s, i, "{\"WorkspacesChanged\":{\"workspaces\":"@)) by {
                if seg(s, i, "{\"WorkspacesChanged\":{\"workspaces\":"@) {
                    lemma_seg_index(s, i, "{\"WorkspacesChanged\":{\"workspaces\":"@, 11);
                    lemma_seg_index(s, i, "{\"WorkspaceActivated\":{\"id\":"@, 11);
                }
            }
        },
        EventV::Other => {
            assert(!seg(s, i, "{\"WorkspacesChanged\":{\"workspaces\":"@)) by {
                if seg(s, i, "{\"WorkspacesChanged\":{\"workspaces\":"@) {
                    lemma_seg_index(s, i, "{\"WorkspacesChanged\":{\"workspaces\":"@, 0);
                    lemma_seg_index(s, i, "\"Other\""@, 0);
                }
            }
            assert(!seg(s, i, "{\"WorkspaceActivated\":{\"id\":"@)) by {
                if seg(s, i, "{\"WorkspaceActivated\":{\"id\":"@) {
                    lemma_seg_index(s, i, "{\"WorkspaceActivated\":{\"id\":"@, 0);
                    lemma_seg_index(s, i, "\"Other\""@, 0);
                }
            }
        },
    }
}

/// Round trip for requests: decoding the canonical encoding of any
/// request yields that request.
pub proof fn lemma_round_trip_request(v: RequestV)
    ensures
        spec_decode_request(enc_request(v)) == Some(v),
{
    let s = enc_request(v);
    assert(s.subrange(0, s.len() as int) =~= s);
    assert(seg(s, 0, s));
    lemma_sd_request(s, 0, v);
}

/// Round trip for workspace records.
pub proof fn lemma_round_trip_workspace(v: WorkspaceV)
    ensures
        spec_decode_workspace(enc_workspace(v)) == Some(v),
{
    let s = enc_workspace(v);
    assert(s.subrange(0, s.len() as int) =~= s);
    assert(seg(s, 0, s));
    lemma_sd_workspace(s, 0, v);
}

/// Round trip for responses.
pub proof fn lemma_round_trip_response(v: ResponseV)
    ensures
        spec_decode_response(enc_response(v)) == Some(v),
{
    let s = enc_response(v);
    assert(s.subrange(0, s.len() as int) =~= s);
    assert(seg(s, 0, s));
    lemma_sd_response(s, 0, v);
}

/// Round trip for replies.
pub proof fn lemma_round_trip_reply(v: ReplyV)
    ensures
        spec_decode_reply(enc_reply(v)) == Some(v),
{
    let s = enc_reply(v);
    assert(s.subrange(0, s.len() as int) =~= s);
    assert(seg(s, 0, s));
    lemma_sd_reply(s, 0, v);
}

/// Round trip for events.
pub proof fn lemma_round_trip_event(v: EventV)
    ensures
        spec_decode_event(enc_event(v)) == Some(v),
{
    let s = enc_event(v);
    assert(s.subrange(0, s.len() as int) =~= s);
    assert(seg(s, 0, s));
    lemma_sd_event(s, 0, v);
}

} // verus!
