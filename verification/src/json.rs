//! Byte-level JSON emission for the publication channel.
//!
//! Published window and monitor records are UTF-8 JSON built directly as
//! bytes: string content is escaped byte by byte (multi-byte UTF-8 sequences
//! pass through unchanged), numbers are written in decimal. Each emitter's
//! contract states the exact byte sequence it appends.

use vstd::prelude::*;
use vstd::string::StringSliceAdditionalSpecFns;
use vstd::utf8::encode_utf8;

verus! {

/// The lowercase hexadecimal digit for a value below sixteen.
pub open spec fn hex_digit(d: u8) -> u8 {
    if d < 10 {
        (0x30 + d) as u8
    } else {
        (0x57 + d) as u8
    }
}

/// How one byte of string content is written inside a JSON string: the two
/// quote and backslash characters and the named control characters get a
/// backslash escape, other control bytes a `\u00` escape, and every other
/// byte stands as itself.
pub open spec fn escape_byte(b: u8) -> Seq<u8> {
    if b == 0x22 {
        seq![0x5cu8, 0x22u8]
    } else if b == 0x5c {
        seq![0x5cu8, 0x5cu8]
    } else if b == 0x08 {
        seq![0x5cu8, 0x62u8]
    } else if b == 0x09 {
        seq![0x5cu8, 0x74u8]
    } else if b == 0x0a {
        seq![0x5cu8, 0x6eu8]
    } else if b == 0x0c {
        seq![0x5cu8, 0x66u8]
    } else if b == 0x0d {
        seq![0x5cu8, 0x72u8]
    } else if b < 0x20 {
        seq![0x5cu8, 0x75u8, 0x30u8, 0x30u8, hex_digit(b / 16), hex_digit(b % 16)]
    } else {
        seq![b]
    }
}

/// The escaped form of string content, byte by byte.
pub open spec fn escaped(s: Seq<u8>) -> Seq<u8>
    decreases s.len(),
{
    if s.len() == 0 {
        Seq::empty()
    } else {
        escape_byte(s[0]) + escaped(s.drop_first())
    }
}

/// A JSON string: a quote, the escaped content, a quote.
pub open spec fn json_string(s: Seq<u8>) -> Seq<u8> {
    seq![0x22u8] + escaped(s) + seq![0x22u8]
}

/// The decimal digits of a natural number, most significant first.
pub open spec fn dec_of(n: nat) -> Seq<u8>
    decreases n,
{
    if n < 10 {
        seq![(0x30 + n) as u8]
    } else {
        dec_of(n / 10).push((0x30 + n % 10) as u8)
    }
}

/// The decimal form of an integer: a minus sign before the digits of its
/// magnitude when it is negative.
pub open spec fn dec_int(n: int) -> Seq<u8> {
    if n < 0 {
        seq![0x2du8] + dec_of((-n) as nat)
    } else {
        dec_of(n as nat)
    }
}

/// A JSON boolean.
pub open spec fn bool_bytes(b: bool) -> Seq<u8> {
    if b {
        encode_utf8("true"@)
    } else {
        encode_utf8("false"@)
    }
}

/// A list of already-serialized pieces joined with commas.
pub open spec fn joined(rs: Seq<Seq<u8>>) -> Seq<u8>
    decreases rs.len(),
{
    if rs.len() == 0 {
        Seq::empty()
    } else if rs.len() == 1 {
        rs[0]
    } else {
        rs[0] + seq![0x2cu8] + joined(rs.drop_first())
    }
}

/// Joining one more piece appends it, behind a comma unless it is the first.
pub proof fn lemma_joined_push(rs: Seq<Seq<u8>>, r: Seq<u8>)
    ensures
        rs.len() == 0 ==> joined(rs.push(r)) == r,
        rs.len() > 0 ==> joined(rs.push(r)) == joined(rs) + seq![0x2cu8] + r,
    decreases rs.len(),
{
    if rs.len() == 0 {
        assert(joined(rs.push(r)) == rs.push(r)[0]);
    } else if rs.len() == 1 {
        assert(rs.push(r).drop_first() =~= seq![r]);
        assert(joined(rs.push(r)) == rs[0] + seq![0x2cu8] + joined(seq![r]));
        assert(joined(seq![r]) == r);
    } else {
        lemma_joined_push(rs.drop_first(), r);
        assert(rs.push(r).drop_first() =~= rs.drop_first().push(r));
        assert(joined(rs.push(r)) == rs[0] + seq![0x2cu8] + (joined(rs.drop_first()) + seq![
            0x2cu8,
        ] + r));
        assert(joined(rs.push(r)) =~= joined(rs) + seq![0x2cu8] + r);
    }
}

/// The UTF-8 bytes of a string slice as a fresh vector.
pub fn bytes_of_literal(s: &str) -> (r: Vec<u8>)
    ensures
        r@ == encode_utf8(s@),
{
    let mut out: Vec<u8> = Vec::new();
    append_literal(&mut out, s);
    out
}

/// Append a copy of a byte slice.
pub fn append_bytes(out: &mut Vec<u8>, s: &[u8])
    ensures
        final(out)@ == old(out)@ + s@,
{
    let mut i: usize = 0;
    while i < s.len()
        invariant
            i <= s@.len(),
            out@ == old(out)@ + s@.take(i as int),
        decreases s@.len() - i,
    {
        out.push(s[i]);
        assert(out@ =~= old(out)@ + s@.take(i as int + 1));
        i = i + 1;
    }
    assert(out@ =~= old(out)@ + s@);
}

/// A fresh copy of a byte slice.
pub fn copy_bytes(s: &[u8]) -> (r: Vec<u8>)
    ensures
        r@ == s@,
{
    let mut out: Vec<u8> = Vec::new();
    append_bytes(&mut out, s);
    assert(out@ =~= s@);
    out
}

/// Appending one byte appends its escape at the end of the escaped content.
proof fn lemma_escaped_push(s: Seq<u8>, b: u8)
    ensures
        escaped(s.push(b)) == escaped(s) + escape_byte(b),
    decreases s.len(),
{
    if s.len() == 0 {
        assert(s.push(b).drop_first() =~= Seq::<u8>::empty());
        assert(s =~= Seq::<u8>::empty());
        assert(escaped(Seq::<u8>::empty()) == Seq::<u8>::empty());
        assert(escaped(s.push(b)) == escape_byte(b) + escaped(Seq::<u8>::empty()));
        assert(escaped(s.push(b)) =~= escaped(s) + escape_byte(b));
    } else {
        lemma_escaped_push(s.drop_first(), b);
        assert(s.push(b).drop_first() =~= s.drop_first().push(b));
        assert(escaped(s.push(b)) == escape_byte(s[0]) + escaped(s.drop_first().push(b)));
        assert(escaped(s.push(b)) =~= escaped(s) + escape_byte(b));
    }
}

/// Append the UTF-8 bytes of a string slice (used for the fixed fragments of
/// each record: braces, keys, placeholder values).
pub fn append_literal(out: &mut Vec<u8>, s: &str)
    ensures
        final(out)@ == old(out)@ + encode_utf8(s@),
{
    let bytes = s.as_bytes();
    let mut i: usize = 0;
    while i < bytes.len()
        invariant
            i <= bytes.len(),
            bytes@ == s.spec_bytes(),
            out@ == old(out)@ + bytes@.take(i as int),
        decreases bytes.len() - i,
    {
        out.push(bytes[i]);
        assert(out@ =~= old(out)@ + bytes@.take(i as int + 1));
        i = i + 1;
    }
    assert(out@ =~= old(out)@ + encode_utf8(s@));
}

/// Append the escaped form of string content.
pub fn append_escaped(out: &mut Vec<u8>, s: &[u8])
    ensures
        final(out)@ == old(out)@ + escaped(s@),
{
    let mut i: usize = 0;
    assert(s@.take(0) =~= Seq::<u8>::empty());
    while i < s.len()
        invariant
            i <= s.len(),
            out@ == old(out)@ + escaped(s@.take(i as int)),
        decreases s.len() - i,
    {
        let b = s[i];
        proof {
            lemma_escaped_push(s@.take(i as int), b);
            assert(s@.take(i as int).push(b) =~= s@.take(i as int + 1));
        }
        if b == 0x22 {
            out.push(0x5c);
            out.push(0x22);
        } else if b == 0x5c {
            out.push(0x5c);
            out.push(0x5c);
        } else if b == 0x08 {
            out.push(0x5c);
            out.push(0x62);
        } else if b == 0x09 {
            out.push(0x5c);
            out.push(0x74);
        } else if b == 0x0a {
            out.push(0x5c);
            out.push(0x6e);
        } else if b == 0x0c {
            out.push(0x5c);
            out.push(0x66);
        } else if b == 0x0d {
            out.push(0x5c);
            out.push(0x72);
        } else if b < 0x20 {
            out.push(0x5c);
            out.push(0x75);
            out.push(0x30);
            out.push(0x30);
            out.push(if b / 16 < 10 { 0x30 + b / 16 } else { 0x57 + b / 16 });
            out.push(if b % 16 < 10 { 0x30 + b % 16 } else { 0x57 + b % 16 });
        } else {
            out.push(b);
        }
        assert(out@ =~= old(out)@ + escaped(s@.take(i as int + 1)));
        i = i + 1;
    }
    assert(s@.take(s@.len() as int) =~= s@);
}

/// Append a JSON string: quote, escaped content, quote.
pub fn append_json_string(out: &mut Vec<u8>, s: &[u8])
    ensures
        final(out)@ == old(out)@ + json_string(s@),
{
    out.push(0x22);
    append_escaped(out, s);
    out.push(0x22);
    assert(out@ =~= old(out)@ + json_string(s@));
}

/// Append the decimal digits of a number, most significant first.
pub fn append_dec_u64(out: &mut Vec<u8>, n: u64)
    ensures
        final(out)@ == old(out)@ + dec_of(n as nat),
    decreases n,
{
    if n >= 10 {
        append_dec_u64(out, n / 10);
    }
    out.push(0x30 + ((n % 10) as u8));
    assert(out@ =~= old(out)@ + dec_of(n as nat));
}

/// Append the decimal form of a signed number.
pub fn append_dec_i32(out: &mut Vec<u8>, n: i32)
    ensures
        final(out)@ == old(out)@ + dec_int(n as int),
{
    if n < 0 {
        out.push(0x2d);
        let wide: i64 = n as i64;
        let mag: u64 = (-wide) as u64;
        append_dec_u64(out, mag);
        assert(out@ =~= old(out)@ + dec_int(n as int));
    } else {
        append_dec_u64(out, n as u64);
    }
}

/// Append a JSON boolean.
pub fn append_bool(out: &mut Vec<u8>, b: bool)
    ensures
        final(out)@ == old(out)@ + bool_bytes(b),
{
    if b {
        append_literal(out, "true");
    } else {
        append_literal(out, "false");
    }
}

} // verus!
