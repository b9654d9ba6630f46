//! Character and numeral groundwork for the codec: digits, hexadecimal
//! digits, the canonical decimal form of a `u64`, whitespace, segments of
//! a character sequence, and the small executable helpers that move
//! between `&str`, `Vec<char>` and `String`.

use vstd::prelude::*;

verus! {

/// `c` is a decimal digit.
pub open spec fn is_digit(c: char) -> bool {
    0x30 <= c as u32 && c as u32 <= 0x39
}

/// The value of a decimal digit character.
pub open spec fn digit_val(c: char) -> nat {
    (c as u32 - 0x30) as nat
}

/// The decimal digit character for a value below ten.
pub open spec fn digit_char(n: nat) -> char {
    if n == 0 {
        '0'
    } else if n == 1 {
        '1'
    } else if n == 2 {
        '2'
    } else if n == 3 {
        '3'
    } else if n == 4 {
        '4'
    } else if n == 5 {
        '5'
    } else if n == 6 {
        '6'
    } else if n == 7 {
        '7'
    } else if n == 8 {
        '8'
    } else {
        '9'
    }
}

pub proof fn lemma_digit_char_val(n: nat)
    requires
        n < 10,
    ensures
        is_digit(digit_char(n)),
        digit_val(digit_char(n)) == n,
{
}

/// The lower-case hexadecimal digit character for a value below sixteen.
pub open spec fn hex_char(n: nat) -> char {
    if n < 10 {
        digit_char(n)
    } else if n == 10 {
        'a'
    } else if n == 11 {
        'b'
    } else if n == 12 {
        'c'
    } else if n == 13 {
        'd'
    } else if n == 14 {
        'e'
    } else {
        'f'
    }
}

/// `c` is a lower-case hexadecimal digit.
pub open spec fn is_hex(c: char) -> bool {
    is_digit(c) || (0x61 <= c as u32 && c as u32 <= 0x66)
}

/// The value of a lower-case hexadecimal digit character.
pub open spec fn hex_val(c: char) -> nat {
    if is_digit(c) {
        digit_val(c)
    } else {
        (c as u32 - 0x61 + 10) as nat
    }
}

pub proof fn lemma_hex_char_val(n: nat)
    requires
        n < 16,
    ensures
        is_hex(hex_char(n)),
        hex_val(hex_char(n)) == n,
{
}

/// The hexadecimal digit character for a value below sixteen, executable
/// form.
pub fn hex_char_ex(n: u32) -> (c: char)
    requires
        n < 16,
    ensures
        c == hex_char(n as nat),
{
    match n {
        0 => '0',
        1 => '1',
        2 => '2',
        3 => '3',
        4 => '4',
        5 => '5',
        6 => '6',
        7 => '7',
        8 => '8',
        9 => '9',
        10 => 'a',
        11 => 'b',
        12 => 'c',
        13 => 'd',
        14 => 'e',
        _ => 'f',
    }
}

/// The canonical decimal form of a natural number: no sign, no leading
/// zeros (a single `'0'` for zero).
pub open spec fn dec_seq(n: nat) -> Seq<char>
    decreases n,
{
    if n < 10 {
        seq![digit_char(n)]
    } else {
        dec_seq(n / 10) + seq![digit_char(n % 10)]
    }
}

pub proof fn lemma_dec_seq_digits(n: nat)
    ensures
        dec_seq(n).len() >= 1,
        forall|k: int| 0 <= k < dec_seq(n).len() ==> is_digit(#[trigger] dec_seq(n)[k]),
    decreases n,
{
    if n < 10 {
        lemma_digit_char_val(n);
    } else {
        lemma_dec_seq_digits(n / 10);
        lemma_digit_char_val(n % 10);
    }
}

/// The digit character for a value below ten, executable form.
pub fn digit_char_ex(n: u64) -> (c: char)
    requires
        n < 10,
    ensures
        c == digit_char(n as nat),
{
    match n {
        0 => '0',
        1 => '1',
        2 => '2',
        3 => '3',
        4 => '4',
        5 => '5',
        6 => '6',
        7 => '7',
        8 => '8',
        _ => '9',
    }
}

/// The canonical decimal digits of `n`, executable form.
pub fn u64_to_dec(n: u64) -> (r: Vec<char>)
    ensures
        r@ == dec_seq(n as nat),
    decreases n,
{
    if n < 10 {
        let mut v: Vec<char> = Vec::new();
        v.push(digit_char_ex(n));
        assert(v@ =~= dec_seq(n as nat));
        v
    } else {
        let mut v: Vec<char> = u64_to_dec(n / 10);
        v.push(digit_char_ex(n % 10));
        assert(v@ =~= dec_seq(n as nat));
        v
    }
}

/// Powers of ten.
pub open spec fn pow10(n: nat) -> nat
    decreases n,
{
    if n == 0 {
        1
    } else {
        10 * pow10((n - 1) as nat)
    }
}

pub proof fn lemma_pow10_pos(n: nat)
    ensures
        pow10(n) >= 1,
    decreases n,
{
    if n > 0 {
        lemma_pow10_pos((n - 1) as nat);
    }
}

/// The value of a digit string, leading digit first.
pub open spec fn val_digits(d: Seq<char>) -> nat
    decreases d.len(),
{
    if d.len() == 0 {
        0
    } else {
        digit_val(d[0]) * pow10((d.len() - 1) as nat) + val_digits(d.skip(1))
    }
}

/// Appending one digit multiplies the value by ten and adds the digit.
pub proof fn lemma_val_snoc(d: Seq<char>, c: char)
    ensures
        val_digits(d.push(c)) == val_digits(d) * 10 + digit_val(c),
    decreases d.len(),
{
    if d.len() == 0 {
        assert(d.push(c) =~= seq![c]);
        assert(seq![c].skip(1) =~= Seq::<char>::empty());
        assert(pow10(0) == 1);
        assert(val_digits(Seq::<char>::empty()) == 0);
        assert(val_digits(seq![c]) == digit_val(c) * pow10(0) + val_digits(seq![c].skip(1)));
        assert(val_digits(d) == 0);
    } else {
        assert(d.push(c).skip(1) =~= d.skip(1).push(c));
        lemma_val_snoc(d.skip(1), c);
        let p = pow10((d.len() - 1) as nat);
        assert(pow10(d.len() as nat) == 10 * p);
        let dv0 = digit_val(d[0]);
        assert(dv0 * (10 * p) == (dv0 * p) * 10) by (nonlinear_arith);
        assert(d.push(c)[0] == d[0]);
        assert(val_digits(d.push(c)) == dv0 * (10 * p) + (val_digits(d.skip(1)) * 10 + digit_val(
            c,
        )));
        assert(val_digits(d) * 10 == (dv0 * p + val_digits(d.skip(1))) * 10);
        assert((dv0 * p + val_digits(d.skip(1))) * 10 == (dv0 * p) * 10 + val_digits(d.skip(1))
            * 10) by (nonlinear_arith);
    }
}

/// The canonical decimal form of `n` has value `n`.
pub proof fn lemma_val_dec(n: nat)
    ensures
        val_digits(dec_seq(n)) == n,
    decreases n,
{
    if n < 10 {
        lemma_digit_char_val(n);
        assert(dec_seq(n) == seq![digit_char(n)]);
        assert(seq![digit_char(n)].skip(1) =~= Seq::<char>::empty());
        assert(pow10(0) == 1);
        assert(val_digits(Seq::<char>::empty()) == 0);
        assert(val_digits(dec_seq(n)) == digit_val(digit_char(n)) * pow10(0) + val_digits(
            seq![digit_char(n)].skip(1),
        ));
    } else {
        lemma_val_dec(n / 10);
        lemma_digit_char_val(n % 10);
        assert(dec_seq(n) =~= dec_seq(n / 10).push(digit_char(n % 10)));
        lemma_val_snoc(dec_seq(n / 10), digit_char(n % 10));
    }
}

/// A digit-string prefix never exceeds the whole string's value.
pub proof fn lemma_val_prefix(d: Seq<char>, m: int)
    requires
        0 <= m <= d.len(),
    ensures
        val_digits(d.take(m)) <= val_digits(d),
    decreases d.len() - m,
{
    if m == d.len() {
        assert(d.take(m) =~= d);
    } else {
        assert(d.take(m + 1) =~= d.take(m).push(d[m]));
        lemma_val_snoc(d.take(m), d[m]);
        lemma_val_prefix(d, m + 1);
    }
}

/// JSON insignificant whitespace, and the line terminators a transport
/// may leave at the end of a read line.
pub open spec fn is_ws(c: char) -> bool {
    c == ' ' || c == '\t' || c == '\n' || c == '\r'
}

/// Digit test, executable form.
pub fn is_digit_ex(c: char) -> (r: bool)
    ensures
        r == is_digit(c),
{
    let u: u32 = c as u32;
    0x30 <= u && u <= 0x39
}

/// Digit value, executable form.
pub fn digit_val_ex(c: char) -> (r: u32)
    requires
        is_digit(c),
    ensures
        r == digit_val(c),
{
    c as u32 - 0x30
}

/// Hexadecimal digit test, executable form.
pub fn is_hex_ex(c: char) -> (r: bool)
    ensures
        r == is_hex(c),
{
    let u: u32 = c as u32;
    (0x30 <= u && u <= 0x39) || (0x61 <= u && u <= 0x66)
}

/// Hexadecimal digit value, executable form.
pub fn hex_val_ex(c: char) -> (r: u32)
    requires
        is_hex(c),
    ensures
        r == hex_val(c),
{
    let u: u32 = c as u32;
    if u <= 0x39 {
        u - 0x30
    } else {
        u - 0x61 + 10
    }
}

/// Whitespace test, executable form.
pub fn is_ws_ex(c: char) -> (r: bool)
    ensures
        r == is_ws(c),
{
    c == ' ' || c == '\t' || c == '\n' || c == '\r'
}

/// `t` occurs in `s` as the segment starting at `i`.
pub open spec fn seg(s: Seq<char>, i: int, t: Seq<char>) -> bool {
    0 <= i && i + t.len() <= s.len() && s.subrange(i, i + t.len()) == t
}

/// A segment made of two parts splits into a segment for each part.
pub proof fn lemma_seg_split(s: Seq<char>, i: int, a: Seq<char>, b: Seq<char>)
    requires
        seg(s, i, a + b),
    ensures
        seg(s, i, a),
        seg(s, i + a.len(), b),
{
    assert(s.subrange(i, i + a.len()) =~= a) by {
        assert forall|k: int| 0 <= k < a.len() implies s.subrange(i, i + a.len())[k] == a[k] by {
            assert(s.subrange(i, i + (a + b).len())[k] == (a + b)[k]);
        }
    }
    assert(s.subrange(i + a.len(), i + a.len() + b.len()) =~= b) by {
        assert forall|k: int| 0 <= k < b.len() implies s.subrange(
            i + a.len(),
            i + a.len() + b.len(),
        )[k] == b[k] by {
            assert(s.subrange(i, i + (a + b).len())[a.len() + k] == (a + b)[a.len() + k]);
        }
    }
}

/// A character of a segment is the corresponding character of the whole.
pub proof fn lemma_seg_index(s: Seq<char>, i: int, t: Seq<char>, k: int)
    requires
        seg(s, i, t),
        0 <= k < t.len(),
    ensures
        s[i + k] == t[k],
{
    assert(s.subrange(i, i + t.len())[k] == t[k]);
}

/// The characters of a string slice, in order.
pub fn str_to_chars(s: &str) -> (r: Vec<char>)
    ensures
        r@ == s@,
{
    let n: usize = s.unicode_len();
    let mut r: Vec<char> = Vec::new();
    let mut i: usize = 0;
    while i < n
        invariant
            n == s@.len(),
            0 <= i <= n,
            r@ == s@.take(i as int),
        decreases n - i,
    {
        let c: char = s.get_char(i);
        r.push(c);
        assert(r@ =~= s@.take(i + 1 as int));
        i = i + 1;
    }
    assert(r@ =~= s@);
    r
}

/// Relies on `String`'s `FromIterator<char>` implementation: collecting
/// an iterator of characters yields a string whose characters are exactly
/// the collected ones, in order.
#[verifier::external_body]
pub fn chars_to_string(v: &Vec<char>) -> (s: String)
    ensures
        s@ == v@,
{
    v.iter().collect()
}

/// Append the characters of `lit` to `out`.
pub fn append_lit(out: &mut Vec<char>, lit: &str)
    ensures
        final(out)@ == old(out)@ + lit@,
{
    let n: usize = lit.unicode_len();
    let mut k: usize = 0;
    while k < n
        invariant
            n == lit@.len(),
            0 <= k <= n,
            out@ == old(out)@ + lit@.take(k as int),
        decreases n - k,
    {
        let c: char = lit.get_char(k);
        out.push(c);
        assert(out@ =~= old(out)@ + lit@.take(k + 1 as int));
        k = k + 1;
    }
    assert(out@ =~= old(out)@ + lit@);
}

/// Whether `lit` occurs in `s` at position `i`; on success the position
/// just past it.
pub fn expect(s: &Vec<char>, i: usize, lit: &str) -> (r: Option<usize>)
    ensures
        match r {
            Some(j) => j == i + lit@.len() && seg(s@, i as int, lit@),
            None => !seg(s@, i as int, lit@),
        },
{
    let n: usize = lit.unicode_len();
    let slen: usize = s.len();
    if i > slen || n > slen - i {
        return None;
    }
    let mut k: usize = 0;
    while k < n
        invariant
            n == lit@.len(),
            0 <= k <= n,
            slen == s@.len(),
            i + n <= slen,
            forall|m: int| 0 <= m < k ==> s@[i + m] == lit@[m],
        decreases n - k,
    {
        let c: char = lit.get_char(k);
        if s[i + k] != c {
            assert(!seg(s@, i as int, lit@)) by {
                if seg(s@, i as int, lit@) {
                    lemma_seg_index(s@, i as int, lit@, k as int);
                }
            }
            return None;
        }
        k = k + 1;
    }
    assert(seg(s@, i as int, lit@)) by {
        assert(s@.subrange(i as int, i + lit@.len()) =~= lit@);
    }
    Some(i + n)
}

} // verus!
