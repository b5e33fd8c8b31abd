//! The continuation token: every property of an incoming request, written
//! into one string that can travel in a correlation field and be read back
//! by whichever instance receives the eventual reply.
//!
//! Layout: the properties are framed as bytes (each text as an eight-byte
//! big-endian length followed by its UTF-8 bytes, each integer as eight
//! big-endian bytes) and the bytes are written as lower-case hexadecimal.
use vstd::prelude::*;
use vstd::utf8::{decode_utf8, encode_utf8, valid_utf8, encode_utf8_valid_utf8, encode_utf8_decode_utf8};

use crate::envelope::{RequestProperties, RequestPropertiesView};
use crate::ids::{AccountId, AgentId, AccountIdView, AgentIdView};
use crate::text::{hex_char, hex_char_value, hex_digit, hex_value, lemma_hex_value_of_digit, lemma_hex_digit_of_value};
use crate::timing::LongTermTiming;

verus! {

broadcast use vstd::string::is_ascii_spec_bytes;

/// Why a token could not be read.
#[derive(Clone, Copy, Debug, PartialEq, Eq, Structural)]
pub enum DecodingError {
    /// The token is not lower-case hexadecimal of even length.
    NotHex,
    /// The bytes do not frame a set of request properties.
    Malformed,
}

/// The eight big-endian bytes of `x`.
pub open spec fn be_bytes(x: u64) -> Seq<u8> {
    seq![
        (x >> 56) as u8,
        (x >> 48) as u8,
        (x >> 40) as u8,
        (x >> 32) as u8,
        (x >> 24) as u8,
        (x >> 16) as u8,
        (x >> 8) as u8,
        x as u8,
    ]
}

/// The number whose big-endian bytes open `b` (which holds at least eight).
pub open spec fn be_value(b: Seq<u8>) -> u64 {
    (b[0] as u64) << 56 | (b[1] as u64) << 48 | (b[2] as u64) << 40 | (b[3] as u64) << 32
        | (b[4] as u64) << 24 | (b[5] as u64) << 16 | (b[6] as u64) << 8 | (b[7] as u64)
}

/// A text field: its byte length, then its UTF-8 bytes.
pub open spec fn text_field(s: Seq<char>) -> Seq<u8> {
    be_bytes(encode_utf8(s).len() as u64) + encode_utf8(s)
}

/// An integer field: its eight bytes in two's complement.
pub open spec fn int_field(x: i64) -> Seq<u8> {
    be_bytes(#[verifier::truncate] (x as u64))
}

/// The framed bytes of a set of request properties.
pub open spec fn props_bytes(p: RequestPropertiesView) -> Seq<u8> {
    text_field(p.method) + (text_field(p.agent_id.label) + (text_field(p.agent_id.account_id.label)
        + (text_field(p.agent_id.account_id.audience) + (text_field(p.correlation_data) + (
    text_field(p.response_topic) + (text_field(p.tracking_id) + (int_field(
        p.long_term_timing.initial_timestamp,
    ) + int_field(p.long_term_timing.cumulative_processing_time))))))))
}

/// Reads a text field at the start of `b`: the text and what follows it.
#[verifier::opaque]
pub open spec fn read_text(b: Seq<u8>) -> Option<(Seq<char>, Seq<u8>)> {
    if b.len() < 8 {
        None
    } else {
        let n = be_value(b) as int;
        if b.len() - 8 < n {
            None
        } else if !valid_utf8(b.subrange(8, 8 + n)) {
            None
        } else {
            Some((decode_utf8(b.subrange(8, 8 + n)), b.subrange(8 + n, b.len() as int)))
        }
    }
}

/// Reads an integer field at the start of `b`: the integer and what follows it.
#[verifier::opaque]
pub open spec fn read_int(b: Seq<u8>) -> Option<(i64, Seq<u8>)> {
    if b.len() < 8 {
        None
    } else {
        Some((#[verifier::truncate] (be_value(b) as i64), b.subrange(8, b.len() as int)))
    }
}

/// Reads the three text fields of an agent id at the start of `b`.
pub open spec fn read_agent(b: Seq<u8>) -> Option<(AgentIdView, Seq<u8>)> {
    match read_text(b) {
        None => None,
        Some((label, b)) => match read_text(b) {
            None => None,
            Some((account_label, b)) => match read_text(b) {
                None => None,
                Some((audience, b)) => Some(
                    (
                        AgentIdView {
                            label,
                            account_id: AccountIdView { label: account_label, audience },
                        },
                        b,
                    ),
                ),
            },
        },
    }
}

/// Reads the two integer fields of a long-term timing at the start of `b`.
pub open spec fn read_timing(b: Seq<u8>) -> Option<(LongTermTiming, Seq<u8>)> {
    match read_int(b) {
        None => None,
        Some((initial, b)) => match read_int(b) {
            None => None,
            Some((cumulative, b)) => Some(
                (
                    LongTermTiming {
                        initial_timestamp: initial,
                        cumulative_processing_time: cumulative,
                    },
                    b,
                ),
            ),
        },
    }
}

/// The request properties that `b` frames, with nothing left over.
pub open spec fn props_of_bytes(b: Seq<u8>) -> Option<RequestPropertiesView> {
    match read_text(b) {
        None => None,
        Some((method, b)) => match read_agent(b) {
            None => None,
            Some((agent_id, b)) => match read_text(b) {
                None => None,
                Some((correlation_data, b)) => match read_text(b) {
                    None => None,
                    Some((response_topic, b)) => match read_text(b) {
                        None => None,
                        Some((tracking_id, b)) => match read_timing(b) {
                            None => None,
                            Some((long_term_timing, b)) => if b.len() == 0 {
                                Some(
                                    RequestPropertiesView {
                                        method,
                                        agent_id,
                                        correlation_data,
                                        response_topic,
                                        tracking_id,
                                        long_term_timing,
                                    },
                                )
                            } else {
                                None
                            },
                        },
                    },
                },
            },
        },
    }
}

/// Two lower-case hexadecimal digits for each byte, high digit first.
pub open spec fn hex_text(b: Seq<u8>) -> Seq<char> {
    Seq::new(
        2 * b.len(),
        |i: int|
            if i % 2 == 0 {
                hex_digit(b[i / 2] as int / 16)
            } else {
                hex_digit(b[i / 2] as int % 16)
            },
    )
}

/// The bytes that `t` writes in hexadecimal, if it is lower-case hexadecimal of even length.
pub open spec fn hex_bytes(t: Seq<char>) -> Option<Seq<u8>> {
    if t.len() % 2 == 0 && (forall|i: int| 0 <= i < t.len() ==> #[trigger] hex_value(t[i]) is Some) {
        Some(
            Seq::new(
                t.len() / 2,
                |j: int| (hex_value(t[2 * j])->0 * 16 + hex_value(t[2 * j + 1])->0) as u8,
            ),
        )
    } else {
        None
    }
}

/// The token that carries `p`.
pub open spec fn token_text(p: RequestPropertiesView) -> Seq<char> {
    hex_text(props_bytes(p))
}

/// The request properties that the token `t` carries, if it is one.
pub open spec fn token_props(t: Seq<char>) -> Option<RequestPropertiesView> {
    match hex_bytes(t) {
        Some(b) => props_of_bytes(b),
        None => None,
    }
}

/// Whether every text of `p` is short enough to have its byte length framed.
pub open spec fn props_fit(p: RequestPropertiesView) -> bool {
    &&& encode_utf8(p.method).len() <= u64::MAX
    &&& encode_utf8(p.agent_id.label).len() <= u64::MAX
    &&& encode_utf8(p.agent_id.account_id.label).len() <= u64::MAX
    &&& encode_utf8(p.agent_id.account_id.audience).len() <= u64::MAX
    &&& encode_utf8(p.correlation_data).len() <= u64::MAX
    &&& encode_utf8(p.response_topic).len() <= u64::MAX
    &&& encode_utf8(p.tracking_id).len() <= u64::MAX
}

pub proof fn lemma_be_round_trip(x: u64)
    ensures
        be_value(be_bytes(x)) == x,
{
    assert(((((x >> 56) as u8) as u64) << 56 | (((x >> 48) as u8) as u64) << 48 | (((x
        >> 40) as u8) as u64) << 40 | (((x >> 32) as u8) as u64) << 32 | (((x >> 24) as u8)
        as u64) << 24 | (((x >> 16) as u8) as u64) << 16 | (((x >> 8) as u8) as u64) << 8 | ((
    x as u8) as u64)) == x) by (bit_vector);
}

pub proof fn lemma_read_text_field(s: Seq<char>, rest: Seq<u8>)
    requires
        encode_utf8(s).len() <= u64::MAX,
    ensures
        read_text(text_field(s) + rest) == Some((s, rest)),
{
    reveal(read_text);
    let e = encode_utf8(s);
    let n = e.len() as int;
    let b = text_field(s) + rest;
    lemma_be_round_trip(n as u64);
    assert(be_value(b) == be_value(be_bytes(n as u64)));
    assert(b.subrange(8, 8 + n) =~= e);
    assert(b.subrange(8 + n, b.len() as int) =~= rest);
    encode_utf8_valid_utf8(s);
    encode_utf8_decode_utf8(s);
}

pub proof fn lemma_read_int_field(x: i64, rest: Seq<u8>)
    ensures
        read_int(int_field(x) + rest) == Some((x, rest)),
{
    reveal(read_int);
    let b = int_field(x) + rest;
    let u = #[verifier::truncate] (x as u64);
    lemma_be_round_trip(u);
    assert(be_value(b) == be_value(be_bytes(u)));
    assert(#[verifier::truncate] ((#[verifier::truncate] (x as u64)) as i64) == x) by (bit_vector);
    assert(b.subrange(8, b.len() as int) =~= rest);
}

pub proof fn lemma_props_round_trip(p: RequestPropertiesView)
    requires
        props_fit(p),
    ensures
        props_of_bytes(props_bytes(p)) == Some(p),
{
    let t = p.long_term_timing;
    let r8 = int_field(t.cumulative_processing_time);
    let r7 = int_field(t.initial_timestamp) + r8;
    let r6 = text_field(p.tracking_id) + r7;
    let r5 = text_field(p.response_topic) + r6;
    let r4 = text_field(p.correlation_data) + r5;
    let r3 = text_field(p.agent_id.account_id.audience) + r4;
    let r2 = text_field(p.agent_id.account_id.label) + r3;
    let r1 = text_field(p.agent_id.label) + r2;
    lemma_read_text_field(p.method, r1);
    lemma_read_text_field(p.agent_id.label, r2);
    lemma_read_text_field(p.agent_id.account_id.label, r3);
    lemma_read_text_field(p.agent_id.account_id.audience, r4);
    lemma_read_text_field(p.correlation_data, r5);
    lemma_read_text_field(p.response_topic, r6);
    lemma_read_text_field(p.tracking_id, r7);
    lemma_read_int_field(t.initial_timestamp, r8);
    assert(r8 =~= int_field(t.cumulative_processing_time) + Seq::<u8>::empty());
    lemma_read_int_field(t.cumulative_processing_time, Seq::<u8>::empty());
}

pub proof fn lemma_hex_round_trip(b: Seq<u8>)
    ensures
        hex_bytes(hex_text(b)) == Some(b),
{
    let t = hex_text(b);
    assert forall|i: int| 0 <= i < t.len() implies #[trigger] hex_value(t[i]) is Some by {
        if i % 2 == 0 {
            lemma_hex_value_of_digit(b[i / 2] as int / 16);
        } else {
            lemma_hex_value_of_digit(b[i / 2] as int % 16);
        }
    }
    let d = hex_bytes(t)->0;
    assert forall|j: int| 0 <= j < b.len() implies d[j] == b[j] by {
        assert((2 * j) / 2 == j && (2 * j) % 2 == 0);
        assert((2 * j + 1) / 2 == j && (2 * j + 1) % 2 == 1);
        lemma_hex_value_of_digit(b[j] as int / 16);
        lemma_hex_value_of_digit(b[j] as int % 16);
    }
    assert(d =~= b);
}

/// Decoding a token that was encoded gives back every property.
pub proof fn lemma_token_round_trip(p: RequestPropertiesView)
    requires
        props_fit(p),
    ensures
        token_props(token_text(p)) == Some(p),
{
    lemma_hex_round_trip(props_bytes(p));
    lemma_props_round_trip(p);
}

pub proof fn lemma_be_bytes_of_value(b: Seq<u8>)
    requires
        b.len() >= 8,
    ensures
        be_bytes(be_value(b)) == b.subrange(0, 8),
{
    let (b0, b1, b2, b3, b4, b5, b6, b7) = (b[0], b[1], b[2], b[3], b[4], b[5], b[6], b[7]);
    let x = be_value(b);
    assert(x == (b0 as u64) << 56 | (b1 as u64) << 48 | (b2 as u64) << 40 | (b3 as u64) << 32
        | (b4 as u64) << 24 | (b5 as u64) << 16 | (b6 as u64) << 8 | (b7 as u64));
    assert((x >> 56) as u8 == b0 && (x >> 48) as u8 == b1 && (x >> 40) as u8 == b2 && (x >> 32)
        as u8 == b3 && (x >> 24) as u8 == b4 && (x >> 16) as u8 == b5 && (x >> 8) as u8 == b6
        && x as u8 == b7) by (bit_vector)
        requires
            x == (b0 as u64) << 56 | (b1 as u64) << 48 | (b2 as u64) << 40 | (b3 as u64) << 32 | (
            b4 as u64) << 24 | (b5 as u64) << 16 | (b6 as u64) << 8 | (b7 as u64),
    ;
    assert(be_bytes(x) =~= b.subrange(0, 8));
}

pub proof fn lemma_read_text_frames(b: Seq<u8>)
    ensures
        read_text(b) matches Some((s, rest)) ==> encode_utf8(s).len() <= u64::MAX && b
            == text_field(s) + rest,
{
    reveal(read_text);
    if read_text(b) is Some {
        let n = be_value(b) as int;
        let body = b.subrange(8, 8 + n);
        let s = decode_utf8(body);
        vstd::utf8::decode_utf8_encode_utf8(body);
        lemma_be_bytes_of_value(b);
        assert(encode_utf8(s).len() as u64 == be_value(b));
        assert(b =~= text_field(s) + b.subrange(8 + n, b.len() as int));
    }
}

pub proof fn lemma_read_int_frames(b: Seq<u8>)
    ensures
        read_int(b) matches Some((x, rest)) ==> b == int_field(x) + rest,
{
    reveal(read_int);
    if read_int(b) is Some {
        let x = be_value(b);
        lemma_be_bytes_of_value(b);
        assert(#[verifier::truncate] ((#[verifier::truncate] (x as i64)) as u64) == x)
            by (bit_vector);
        assert(b =~= int_field(#[verifier::truncate] (x as i64)) + b.subrange(8, b.len() as int));
    }
}

pub proof fn lemma_props_canonical(b: Seq<u8>)
    requires
        props_of_bytes(b) is Some,
    ensures
        props_fit(props_of_bytes(b)->0),
        props_bytes(props_of_bytes(b)->0) == b,
{
    let (_, b1) = read_text(b)->0;
    lemma_read_text_frames(b);
    let (_, b2) = read_text(b1)->0;
    lemma_read_text_frames(b1);
    let (_, b3) = read_text(b2)->0;
    lemma_read_text_frames(b2);
    let (_, b4) = read_text(b3)->0;
    lemma_read_text_frames(b3);
    let (_, b5) = read_text(b4)->0;
    lemma_read_text_frames(b4);
    let (_, b6) = read_text(b5)->0;
    lemma_read_text_frames(b5);
    let (_, b7) = read_text(b6)->0;
    lemma_read_text_frames(b6);
    let (_, b8) = read_int(b7)->0;
    lemma_read_int_frames(b7);
    let (_, b9) = read_int(b8)->0;
    lemma_read_int_frames(b8);
    assert(b9 =~= Seq::<u8>::empty());
    let p = props_of_bytes(b)->0;
    assert(int_field(p.long_term_timing.cumulative_processing_time) + b9 =~= int_field(
        p.long_term_timing.cumulative_processing_time,
    ));
}

pub proof fn lemma_hex_canonical(t: Seq<char>)
    requires
        hex_bytes(t) is Some,
    ensures
        hex_text(hex_bytes(t)->0) == t,
{
    let b = hex_bytes(t)->0;
    let h = hex_text(b);
    assert forall|i: int| 0 <= i < t.len() implies h[i] == t[i] by {
        let j = i / 2;
        assert(hex_value(t[2 * j]) is Some);
        assert(hex_value(t[2 * j + 1]) is Some);
        let hi = hex_value(t[2 * j])->0;
        let lo = hex_value(t[2 * j + 1])->0;
        lemma_hex_digit_of_value(t[2 * j]);
        lemma_hex_digit_of_value(t[2 * j + 1]);
        assert(hi < 16 && lo < 16);
        assert(b[j] == (hi * 16 + lo) as u8);
        assert((hi * 16 + lo) as int / 16 == hi as int);
        assert((hi * 16 + lo) as int % 16 == lo as int);
        if i % 2 == 0 {
            assert(i == 2 * j);
        } else {
            assert(i == 2 * j + 1);
        }
    }
    assert(h =~= t);
}

/// Encoding the properties that a token carries gives back that very token.
pub proof fn lemma_token_canonical(t: Seq<char>)
    requires
        token_props(t) is Some,
    ensures
        props_fit(token_props(t)->0),
        token_text(token_props(t)->0) == t,
{
    lemma_props_canonical(hex_bytes(t)->0);
    lemma_hex_canonical(t);
}

/// Relies on `String::from_utf8`: it succeeds exactly on valid UTF-8, and the
/// string then holds those bytes.
#[verifier::external_body]
fn string_from_utf8(bytes: Vec<u8>) -> (r: Option<String>)
    ensures
        r is Some <==> valid_utf8(bytes@),
        r matches Some(s) ==> encode_utf8(s@) == bytes@,
{
    String::from_utf8(bytes).ok()
}

fn push_be(out: &mut Vec<u8>, x: u64)
    ensures
        final(out)@ == old(out)@ + be_bytes(x),
{
    out.push((x >> 56) as u8);
    out.push((x >> 48) as u8);
    out.push((x >> 40) as u8);
    out.push((x >> 32) as u8);
    out.push((x >> 24) as u8);
    out.push((x >> 16) as u8);
    out.push((x >> 8) as u8);
    out.push(x as u8);
    assert(final(out)@ =~= old(out)@ + be_bytes(x));
}

fn read_be(b: &Vec<u8>, pos: usize) -> (r: u64)
    requires
        pos + 8 <= b.len(),
    ensures
        r == be_value(b@.subrange(pos as int, b.len() as int)),
{
    (b[pos] as u64) << 56 | (b[pos + 1] as u64) << 48 | (b[pos + 2] as u64) << 40 | (b[pos + 3]
        as u64) << 32 | (b[pos + 4] as u64) << 24 | (b[pos + 5] as u64) << 16 | (b[pos + 6]
        as u64) << 8 | (b[pos + 7] as u64)
}

fn push_text(out: &mut Vec<u8>, s: &str)
    ensures
        final(out)@ == old(out)@ + text_field(s@),
{
    let b = s.as_bytes();
    push_be(out, b.len() as u64);
    let ghost start = out@;
    let mut i: usize = 0;
    while i < b.len()
        invariant
            b@ == encode_utf8(s@),
            0 <= i <= b.len(),
            out@ == start + b@.subrange(0, i as int),
        decreases b.len() - i,
    {
        out.push(b[i]);
        i = i + 1;
        assert(out@ =~= start + b@.subrange(0, i as int));
    }
    assert(b@.subrange(0, b.len() as int) =~= b@);
    assert(final(out)@ =~= old(out)@ + text_field(s@));
}

fn push_int(out: &mut Vec<u8>, x: i64)
    ensures
        final(out)@ == old(out)@ + int_field(x),
{
    push_be(out, x as u64);
}

fn hex_string(b: &Vec<u8>) -> (r: String)
    ensures
        r@ == hex_text(b@),
{
    let mut out = String::new();
    let mut i: usize = 0;
    while i < b.len()
        invariant
            0 <= i <= b.len(),
            out@.len() == 2 * i,
            forall|k: int| 0 <= k < 2 * i ==> out@[k] == #[trigger] hex_text(b@)[k],
        decreases b.len() - i,
    {
        let x = b[i];
        out.push(hex_char(x / 16));
        out.push(hex_char(x % 16));
        assert((2 * i) / 2 == i as int && (2 * i) % 2 == 0);
        assert((2 * i + 1) / 2 == i as int && (2 * i + 1) % 2 == 1);
        i = i + 1;
    }
    assert(out@ =~= hex_text(b@));
    out
}

/// Writes every property of `p` into a token.
pub fn encode(p: &RequestProperties) -> (r: String)
    ensures
        r@ == token_text(p@),
{
    let mut bytes: Vec<u8> = Vec::new();
    push_text(&mut bytes, p.method.as_str());
    push_text(&mut bytes, p.agent_id.label.as_str());
    push_text(&mut bytes, p.agent_id.account_id.label.as_str());
    push_text(&mut bytes, p.agent_id.account_id.audience.as_str());
    push_text(&mut bytes, p.correlation_data.as_str());
    push_text(&mut bytes, p.response_topic.as_str());
    push_text(&mut bytes, p.tracking_id.as_str());
    push_int(&mut bytes, p.long_term_timing.initial_timestamp);
    push_int(&mut bytes, p.long_term_timing.cumulative_processing_time);
    assert(bytes@ =~= props_bytes(p@));
    hex_string(&bytes)
}

fn unhex(token: &str) -> (r: Option<Vec<u8>>)
    ensures
        r is Some <==> hex_bytes(token@) is Some,
        r matches Some(v) ==> hex_bytes(token@) == Some(v@),
{
    let ghost t = token@;
    if !token.is_ascii() {
        proof {
            let i = choose|i: int| 0 <= i < t.len() && !('\0' <= #[trigger] t[i] <= '\u{7f}');
            if hex_value(t[i]) is Some {
                lemma_hex_digit_of_value(t[i]);
            }
        }
        return None;
    }
    let b = token.as_bytes();
    let n = b.len();
    assert(b@.len() == t.len());
    if n % 2 != 0 {
        return None;
    }
    let mut out: Vec<u8> = Vec::new();
    let mut j: usize = 0;
    while j < n / 2
        invariant
            t == token@,
            b@.len() == t.len() == n,
            n % 2 == 0,
            0 <= j <= n / 2,
            forall|i: int| 0 <= i < n ==> #[trigger] b@[i] == t[i] as u8,
            forall|i: int| 0 <= i < n ==> '\0' <= #[trigger] t[i] <= '\u{7f}',
            forall|i: int| 0 <= i < 2 * j ==> #[trigger] hex_value(t[i]) is Some,
            out@.len() == j,
            forall|k: int|
                0 <= k < j ==> #[trigger] out@[k] == (hex_value(t[2 * k])->0 * 16 + hex_value(
                    t[2 * k + 1],
                )->0) as u8,
        decreases n / 2 - j,
    {
        let c0 = b[2 * j];
        let c1 = b[2 * j + 1];
        assert(c0 as char == t[2 * j as int]);
        assert(c1 as char == t[2 * j + 1]);
        let hi = match hex_char_value(c0) {
            Some(v) => v,
            None => {
                assert(!(hex_value(t[2 * j as int]) is Some));
                return None;
            },
        };
        let lo = match hex_char_value(c1) {
            Some(v) => v,
            None => {
                assert(!(hex_value(t[2 * j + 1]) is Some));
                return None;
            },
        };
        proof {
            lemma_hex_digit_of_value(t[2 * j as int]);
            lemma_hex_digit_of_value(t[2 * j + 1]);
        }
        out.push(hi * 16 + lo);
        j = j + 1;
    }
    assert forall|i: int| 0 <= i < t.len() implies #[trigger] hex_value(t[i]) is Some by {
    }
    assert(out@ =~= hex_bytes(t)->0);
    Some(out)
}

fn read_text_at(b: &Vec<u8>, pos: usize) -> (r: Option<(String, usize)>)
    requires
        pos <= b.len(),
    ensures
        r is Some <==> read_text(b@.subrange(pos as int, b.len() as int)) is Some,
        r matches Some((s, next)) ==> next <= b.len() && read_text(
            b@.subrange(pos as int, b.len() as int),
        ) == Some((s@, b@.subrange(next as int, b.len() as int))),
{
    let ghost rest = b@.subrange(pos as int, b.len() as int);
    reveal(read_text);
    if b.len() - pos < 8 {
        return None;
    }
    let n = read_be(b, pos);
    if ((b.len() - pos - 8) as u64) < n {
        return None;
    }
    let n = n as usize;
    let start = pos + 8;
    let mut body: Vec<u8> = Vec::new();
    let mut i: usize = start;
    while i < start + n
        invariant
            start <= i <= start + n <= b.len(),
            body@ == b@.subrange(start as int, i as int),
        decreases start + n - i,
    {
        body.push(b[i]);
        i = i + 1;
        assert(body@ =~= b@.subrange(start as int, i as int));
    }
    let ghost framed = body@;
    assert(framed =~= rest.subrange(8, 8 + n));
    assert(rest.subrange(8 + n, rest.len() as int) =~= b@.subrange((start + n) as int, b.len() as int));
    match string_from_utf8(body) {
        None => None,
        Some(s) => {
            proof {
                encode_utf8_decode_utf8(s@);
            }
            Some((s, start + n))
        },
    }
}

fn read_int_at(b: &Vec<u8>, pos: usize) -> (r: Option<(i64, usize)>)
    requires
        pos <= b.len(),
    ensures
        r is Some <==> read_int(b@.subrange(pos as int, b.len() as int)) is Some,
        r matches Some((x, next)) ==> next <= b.len() && read_int(
            b@.subrange(pos as int, b.len() as int),
        ) == Some((x, b@.subrange(next as int, b.len() as int))),
{
    let ghost rest = b@.subrange(pos as int, b.len() as int);
    reveal(read_int);
    if b.len() - pos < 8 {
        return None;
    }
    let x = read_be(b, pos);
    assert(rest.subrange(8, rest.len() as int) =~= b@.subrange(pos + 8, b.len() as int));
    Some((x as i64, pos + 8))
}

fn read_agent_at(b: &Vec<u8>, pos: usize) -> (r: Option<(AgentId, usize)>)
    requires
        pos <= b.len(),
    ensures
        r is Some <==> read_agent(b@.subrange(pos as int, b.len() as int)) is Some,
        r matches Some((a, next)) ==> next <= b.len() && read_agent(
            b@.subrange(pos as int, b.len() as int),
        ) == Some((a@, b@.subrange(next as int, b.len() as int))),
{
    let (label, pos1) = match read_text_at(b, pos) {
        Some(x) => x,
        None => {
            return None;
        },
    };
    let (account_label, pos2) = match read_text_at(b, pos1) {
        Some(x) => x,
        None => {
            return None;
        },
    };
    let (audience, pos3) = match read_text_at(b, pos2) {
        Some(x) => x,
        None => {
            return None;
        },
    };
    Some((AgentId { label, account_id: AccountId { label: account_label, audience } }, pos3))
}

fn read_timing_at(b: &Vec<u8>, pos: usize) -> (r: Option<(LongTermTiming, usize)>)
    requires
        pos <= b.len(),
    ensures
        r is Some <==> read_timing(b@.subrange(pos as int, b.len() as int)) is Some,
        r matches Some((t, next)) ==> next <= b.len() && read_timing(
            b@.subrange(pos as int, b.len() as int),
        ) == Some((t, b@.subrange(next as int, b.len() as int))),
{
    let (initial_timestamp, pos1) = match read_int_at(b, pos) {
        Some(x) => x,
        None => {
            return None;
        },
    };
    let (cumulative_processing_time, pos2) = match read_int_at(b, pos1) {
        Some(x) => x,
        None => {
            return None;
        },
    };
    Some((LongTermTiming { initial_timestamp, cumulative_processing_time }, pos2))
}

/// Reads back the request properties that a token carries.
pub fn decode(token: &str) -> (r: Result<RequestProperties, DecodingError>)
    ensures
        match r {
            Ok(p) => token_props(token@) == Some(p@),
            Err(DecodingError::NotHex) => hex_bytes(token@) is None,
            Err(DecodingError::Malformed) => hex_bytes(token@) is Some && token_props(token@) is None,
        },
{
    let bytes = match unhex(token) {
        Some(b) => b,
        None => {
            return Err(DecodingError::NotHex);
        },
    };
    assert(bytes@.subrange(0, bytes@.len() as int) =~= bytes@);
    let (method, pos1) = match read_text_at(&bytes, 0) {
        Some(x) => x,
        None => {
            return Err(DecodingError::Malformed);
        },
    };
    let (agent_id, pos2) = match read_agent_at(&bytes, pos1) {
        Some(x) => x,
        None => {
            return Err(DecodingError::Malformed);
        },
    };
    let (correlation_data, pos3) = match read_text_at(&bytes, pos2) {
        Some(x) => x,
        None => {
            return Err(DecodingError::Malformed);
        },
    };
    let (response_topic, pos4) = match read_text_at(&bytes, pos3) {
        Some(x) => x,
        None => {
            return Err(DecodingError::Malformed);
        },
    };
    let (tracking_id, pos5) = match read_text_at(&bytes, pos4) {
        Some(x) => x,
        None => {
            return Err(DecodingError::Malformed);
        },
    };
    let (long_term_timing, pos6) = match read_timing_at(&bytes, pos5) {
        Some(x) => x,
        None => {
            return Err(DecodingError::Malformed);
        },
    };
    if pos6 != bytes.len() {
        return Err(DecodingError::Malformed);
    }
    Ok(
        RequestProperties {
            method,
            agent_id,
            correlation_data,
            response_topic,
            tracking_id,
            long_term_timing,
        },
    )
}

} // verus!
