//! Text built from numbers and bytes: upper-case hexadecimal and decimal
//! digits, and byte lists such as `[7, 22, E7]`.

use vstd::prelude::*;

verus! {

/// Relies on std's `String::push_str`: `tail` is appended to `s`.
#[verifier::external_body]
pub(crate) fn append(s: &mut String, tail: &str)
    ensures
        final(s)@ == old(s)@ + tail@,
{
    s.push_str(tail)
}

/// Relies on std's `String::push`: `c` is appended to `s`.
#[verifier::external_body]
fn push_char(s: &mut String, c: char)
    ensures
        final(s)@ == old(s)@.push(c),
{
    s.push(c)
}

/// The upper-case hexadecimal digit of `d` (below 16).
pub open spec fn hex_digit(d: nat) -> char {
    if d < 10 {
        (d + 48) as char
    } else {
        (d + 55) as char
    }
}

/// `n` in upper-case hexadecimal, without prefix or leading zeros.
pub open spec fn hex(n: nat) -> Seq<char>
    decreases n,
{
    if n < 16 {
        seq![hex_digit(n)]
    } else {
        hex(n / 16).push(hex_digit(n % 16))
    }
}

/// `n` in decimal, without leading zeros.
pub open spec fn decimal(n: nat) -> Seq<char>
    decreases n,
{
    if n < 10 {
        seq![hex_digit(n)]
    } else {
        decimal(n / 10).push(hex_digit(n % 10))
    }
}

/// The bytes of `p` in hexadecimal, separated by `", "`.
pub open spec fn byte_list(p: Seq<u8>) -> Seq<char>
    decreases p.len(),
{
    if p.len() == 0 {
        Seq::empty()
    } else if p.len() == 1 {
        hex(p[0] as nat)
    } else {
        byte_list(p.drop_last()) + ", "@ + hex(p.last() as nat)
    }
}

/// The bytes of `p` in hexadecimal between brackets, as in `[7, 22, E7]`.
pub open spec fn bytes_text(p: Seq<u8>) -> Seq<char> {
    "["@ + byte_list(p) + "]"@
}

/// The bytes of `p` as a pretty-printed list of `0x`-prefixed hexadecimal
/// items, one per line: `[]` when empty, else `[`, a line `    0x7,` for
/// each byte, and `]`.
pub open spec fn pretty_bytes(p: Seq<u8>) -> Seq<char> {
    if p.len() == 0 {
        "[]"@
    } else {
        "[\n"@ + pretty_lines(p) + "]"@
    }
}

/// The lines of [`pretty_bytes`], one per byte.
pub open spec fn pretty_lines(p: Seq<u8>) -> Seq<char>
    decreases p.len(),
{
    if p.len() == 0 {
        Seq::empty()
    } else {
        pretty_lines(p.drop_last()) + "    0x"@ + hex(p.last() as nat) + ",\n"@
    }
}

/// A detail text followed by a value in hexadecimal, as in `text: 2E`.
pub open spec fn with_hex(text: Seq<char>, n: nat) -> Seq<char> {
    text + ": "@ + hex(n)
}

/// A detail text followed by a value in decimal, as in `text: 46`.
pub open spec fn with_decimal(text: Seq<char>, n: nat) -> Seq<char> {
    text + ": "@ + decimal(n)
}

/// A detail text followed by bytes in hexadecimal, as in `text: [7, 0]`.
pub open spec fn with_bytes(text: Seq<char>, p: Seq<u8>) -> Seq<char> {
    text + ": "@ + bytes_text(p)
}

fn digit_char(d: u32) -> (c: char)
    requires
        d < 16,
    ensures
        c == hex_digit(d as nat),
{
    if d < 10 {
        ((d + 48) as u8) as char
    } else {
        ((d + 55) as u8) as char
    }
}

/// Appends `n` in upper-case hexadecimal.
pub fn push_hex(s: &mut String, n: u64)
    ensures
        final(s)@ == old(s)@ + hex(n as nat),
    decreases n,
{
    if n >= 16 {
        push_hex(s, n / 16);
    }
    push_char(s, digit_char((n % 16) as u32));
}

/// Appends `n` in decimal.
pub fn push_decimal(s: &mut String, n: usize)
    ensures
        final(s)@ == old(s)@ + decimal(n as nat),
    decreases n,
{
    if n >= 10 {
        push_decimal(s, n / 10);
    }
    push_char(s, digit_char((n % 10) as u32));
}

/// Appends the bytes of `p` in hexadecimal between brackets.
pub fn push_bytes(s: &mut String, p: &[u8])
    ensures
        final(s)@ == old(s)@ + bytes_text(p@),
{
    let ghost start = s@;
    append(s, "[");
    let mut i: usize = 0;
    while i < p.len()
        invariant
            i <= p@.len(),
            s@ == start + "["@ + byte_list(p@.subrange(0, i as int)),
        decreases p@.len() - i,
    {
        let ghost before = s@;
        if i > 0 {
            append(s, ", ");
        }
        push_hex(s, p[i] as u64);
        proof {
            let next = p@.subrange(0, i + 1);
            assert(next.drop_last() =~= p@.subrange(0, i as int));
            assert(next.last() == p@[i as int]);
            if i == 0 {
                assert(byte_list(p@.subrange(0, 0)) =~= Seq::<char>::empty());
                assert(s@ =~= start + "["@ + byte_list(next));
            } else {
                assert(s@ =~= start + "["@ + byte_list(next));
            }
        }
        i += 1;
    }
    assert(p@.subrange(0, i as int) =~= p@);
    append(s, "]");
    assert(s@ =~= start + bytes_text(p@));
}

/// Appends the bytes of `p` as a pretty-printed list, as [`pretty_bytes`]
/// gives it.
pub fn push_pretty_bytes(s: &mut String, p: &[u8])
    ensures
        final(s)@ == old(s)@ + pretty_bytes(p@),
{
    if p.len() == 0 {
        append(s, "[]");
        return;
    }
    let ghost start = s@;
    append(s, "[\n");
    let mut i: usize = 0;
    while i < p.len()
        invariant
            i <= p@.len(),
            s@ == start + "[\n"@ + pretty_lines(p@.subrange(0, i as int)),
        decreases p@.len() - i,
    {
        append(s, "    0x");
        push_hex(s, p[i] as u64);
        append(s, ",\n");
        proof {
            let next = p@.subrange(0, i + 1);
            assert(next.drop_last() =~= p@.subrange(0, i as int));
            assert(next.last() == p@[i as int]);
            assert(s@ =~= start + "[\n"@ + pretty_lines(next));
        }
        i += 1;
    }
    assert(p@.subrange(0, i as int) =~= p@);
    append(s, "]");
    assert(s@ =~= start + pretty_bytes(p@));
}

/// `text` followed by `n` in hexadecimal.
pub fn detail_hex(text: &str, n: u64) -> (r: String)
    ensures
        r@ == with_hex(text@, n as nat),
{
    let mut s = text.to_owned();
    append(&mut s, ": ");
    push_hex(&mut s, n);
    assert(s@ =~= with_hex(text@, n as nat));
    s
}

/// `text` followed by `n` in decimal.
pub fn detail_decimal(text: &str, n: usize) -> (r: String)
    ensures
        r@ == with_decimal(text@, n as nat),
{
    let mut s = text.to_owned();
    append(&mut s, ": ");
    push_decimal(&mut s, n);
    assert(s@ =~= with_decimal(text@, n as nat));
    s
}

/// `text` followed by the bytes of `p` in hexadecimal.
pub fn detail_bytes(text: &str, p: &[u8]) -> (r: String)
    ensures
        r@ == with_bytes(text@, p@),
{
    let mut s = text.to_owned();
    append(&mut s, ": ");
    push_bytes(&mut s, p);
    assert(s@ =~= with_bytes(text@, p@));
    s
}

} // verus!
