//! Construction of the HTTP response bodies, byte-exact: the JSON success
//! and error documents and the health body, with JSON string escaping and
//! decimal rendering verified against their specifications.

use vstd::prelude::*;
use vstd::string::StringSliceAdditionalSpecFns;
use vstd::utf8::encode_utf8;

verus! {

/// The escape of one byte of a UTF-8 string inside a JSON string literal:
/// quote and backslash get a backslash escape, the named control characters
/// their short forms, the remaining control bytes a `\u00XX` form, and
/// every other byte stands as itself.
pub open spec fn esc_byte(b: u8) -> Seq<u8> {
    if b == 0x22 {
        seq![0x5cu8, 0x22u8]
    } else if b == 0x5c {
        seq![0x5cu8, 0x5cu8]
    } else if b == 0x08 {
        seq![0x5cu8, 0x62u8]
    } else if b == 0x0c {
        seq![0x5cu8, 0x66u8]
    } else if b == 0x0a {
        seq![0x5cu8, 0x6eu8]
    } else if b == 0x0d {
        seq![0x5cu8, 0x72u8]
    } else if b == 0x09 {
        seq![0x5cu8, 0x74u8]
    } else if b < 0x20 {
        seq![0x5cu8, 0x75u8, 0x30u8, 0x30u8, hex_digit(b as int / 16), hex_digit(b as int % 16)]
    } else {
        seq![b]
    }
}

/// The lower-case hexadecimal digit for a value below 16.
pub open spec fn hex_digit(n: int) -> u8 {
    if n < 10 {
        (0x30 + n) as u8
    } else {
        (0x57 + n) as u8
    }
}

/// A whole byte string escaped for a JSON string literal.
pub open spec fn escape_spec(s: Seq<u8>) -> Seq<u8>
    decreases s.len(),
{
    if s.len() == 0 {
        Seq::empty()
    } else {
        escape_spec(s.drop_last()) + esc_byte(s.last())
    }
}

/// The decimal digits of `n`, most significant first.
pub open spec fn dec_bytes(n: nat) -> Seq<u8>
    decreases n,
{
    if n < 10 {
        seq![(0x30 + n) as u8]
    } else {
        dec_bytes(n / 10) + seq![(0x30 + n % 10) as u8]
    }
}

/// The decimal rendering of a possibly negative integer.
pub open spec fn int_bytes(n: int) -> Seq<u8> {
    if n < 0 {
        seq![0x2du8] + dec_bytes((-n) as nat)
    } else {
        dec_bytes(n as nat)
    }
}

/// The body of the health response.
pub open spec fn ok_body() -> Seq<u8> {
    encode_utf8("OK"@)
}

/// The JSON document answering a delivered message: status, a fixed
/// message, and the destination topic and partition as configured.
pub open spec fn success_body(topic: Seq<char>, partition: int) -> Seq<u8> {
    encode_utf8("{\"status\":\"success\",\"message\":\"Message sent to Kafka\",\"topic\":\""@)
        + escape_spec(encode_utf8(topic)) + encode_utf8("\",\"partition\":"@) + int_bytes(partition)
        + encode_utf8("}"@)
}

/// The JSON document answering a failed publish: status, a fixed message,
/// and the broker-reported error.
pub open spec fn error_body(error: Seq<char>) -> Seq<u8> {
    encode_utf8("{\"status\":\"error\",\"message\":\"Failed to send message to Kafka\",\"error\":\""@)
        + escape_spec(encode_utf8(error)) + encode_utf8("\"}"@)
}

/// Append the UTF-8 bytes of `s` to `out`.
pub fn push_str_bytes(out: &mut Vec<u8>, s: &str)
    ensures
        final(out)@ == old(out)@ + s.spec_bytes(),
{
    let bs = s.as_bytes();
    let mut j: usize = 0;
    while j < bs.len()
        invariant
            0 <= j <= bs@.len(),
            bs@ == s.spec_bytes(),
            out@ == old(out)@ + bs@.take(j as int),
        decreases bs@.len() - j,
    {
        out.push(bs[j]);
        proof {
            assert(bs@.take(j + 1) =~= bs@.take(j as int).push(bs@[j as int]));
        }
        j += 1;
    }
    proof {
        assert(bs@.take(bs@.len() as int) =~= bs@);
    }
}

/// The lower-case hexadecimal digit for a value below 16.
fn hex_digit_exec(n: u8) -> (r: u8)
    requires
        n < 16,
    ensures
        r == hex_digit(n as int),
{
    if n < 10 {
        0x30 + n
    } else {
        0x57 + n
    }
}

/// Append `s` escaped for a JSON string literal to `out`.
pub fn push_escaped(out: &mut Vec<u8>, s: &[u8])
    ensures
        final(out)@ == old(out)@ + escape_spec(s@),
{
    let mut j: usize = 0;
    while j < s.len()
        invariant
            0 <= j <= s@.len(),
            out@ == old(out)@ + escape_spec(s@.take(j as int)),
        decreases s@.len() - j,
    {
        let b = s[j];
        if b == 0x22 {
            out.push(0x5c);
            out.push(0x22);
        } else if b == 0x5c {
            out.push(0x5c);
            out.push(0x5c);
        } else if b == 0x08 {
            out.push(0x5c);
            out.push(0x62);
        } else if b == 0x0c {
            out.push(0x5c);
            out.push(0x66);
        } else if b == 0x0a {
            out.push(0x5c);
            out.push(0x6e);
        } else if b == 0x0d {
            out.push(0x5c);
            out.push(0x72);
        } else if b == 0x09 {
            out.push(0x5c);
            out.push(0x74);
        } else if b < 0x20 {
            out.push(0x5c);
            out.push(0x75);
            out.push(0x30);
            out.push(0x30);
            out.push(hex_digit_exec(b / 16));
            out.push(hex_digit_exec(b % 16));
        } else {
            out.push(b);
        }
        proof {
            let t = s@.take(j + 1);
            assert(t.drop_last() =~= s@.take(j as int));
            assert(t.last() == s@[j as int]);
        }
        j += 1;
    }
    proof {
        assert(s@.take(s@.len() as int) =~= s@);
    }
}

/// Append the decimal digits of `n` to `out`.
pub fn push_u32_dec(out: &mut Vec<u8>, n: u32)
    ensures
        final(out)@ == old(out)@ + dec_bytes(n as nat),
    decreases n,
{
    if n < 10 {
        out.push(0x30 + (n as u8));
    } else {
        push_u32_dec(out, n / 10);
        out.push(0x30 + ((n % 10) as u8));
    }
}

/// Append the decimal rendering of `n`, with a leading minus sign when
/// negative, to `out`.
pub fn push_i32_dec(out: &mut Vec<u8>, n: i32)
    ensures
        final(out)@ == old(out)@ + int_bytes(n as int),
{
    if n < 0 {
        out.push(0x2d);
        let m: u32 = (-(n as i64)) as u32;
        push_u32_dec(out, m);
    } else {
        push_u32_dec(out, n as u32);
    }
}

/// Build the health body.
pub fn build_ok_body() -> (r: Vec<u8>)
    ensures
        r@ == ok_body(),
{
    let mut v: Vec<u8> = Vec::new();
    push_str_bytes(&mut v, "OK");
    v
}

/// Build the JSON success body for a message delivered to `topic` at
/// `partition`.
pub fn build_success_body(topic: &str, partition: i32) -> (r: Vec<u8>)
    ensures
        r@ == success_body(topic@, partition as int),
{
    let mut v: Vec<u8> = Vec::new();
    push_str_bytes(&mut v, "{\"status\":\"success\",\"message\":\"Message sent to Kafka\",\"topic\":\"");
    push_escaped(&mut v, topic.as_bytes());
    push_str_bytes(&mut v, "\",\"partition\":");
    push_i32_dec(&mut v, partition);
    push_str_bytes(&mut v, "}");
    v
}

/// Build the JSON error body for a publish that failed with `error`.
pub fn build_error_body(error: &str) -> (r: Vec<u8>)
    ensures
        r@ == error_body(error@),
{
    let mut v: Vec<u8> = Vec::new();
    push_str_bytes(&mut v, "{\"status\":\"error\",\"message\":\"Failed to send message to Kafka\",\"error\":\"");
    push_escaped(&mut v, error.as_bytes());
    push_str_bytes(&mut v, "\"}");
    v
}

} // verus!
