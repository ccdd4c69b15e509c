//! The wire codec.
//!
//! The device publishes its status as one JSON object per report and accepts
//! color commands as a JSON object with the integer fields `red`, `green`
//! and `blue` (0–255 each); any other shape is a decode error.  Both
//! directions of that format are this crate's own logic: the encoder below
//! states the exact byte sequence of a report, and the decoder states the
//! exact grammar of a command.
//!
//! Command grammar, over bytes: optional JSON whitespace, `{`, the three
//! members `"red"`, `"green"` and `"blue"` in any order, each exactly once,
//! separated by `,`, with optional whitespace around every token, a value of
//! one to three digits without a leading zero and at most 255, then `}` and
//! optional trailing whitespace up to the end of the input.

use crate::led::RgbColor;
use crate::status::Status;
use vstd::prelude::*;
use vstd::string::StringSliceAdditionalSpecFns;
use vstd::utf8::encode_utf8;

verus! {

// ---------------------------------------------------------------------------
// Decimal numbers
// ---------------------------------------------------------------------------

/// The decimal digits of `n`, most significant first.
pub open spec fn spec_dec(n: nat) -> Seq<u8>
    decreases n,
{
    if n < 10 {
        seq![(0x30 + n) as u8]
    } else {
        spec_dec(n / 10) + seq![(0x30 + n % 10) as u8]
    }
}

/// Appends the decimal digits of `n`, most significant first.
pub fn push_dec_u64(out: &mut Vec<u8>, n: u64)
    ensures
        final(out)@ == old(out)@ + spec_dec(n as nat),
    decreases n,
{
    if n >= 10 {
        push_dec_u64(out, n / 10);
    }
    out.push((n % 10) as u8 + 0x30);
    proof {
        assert(out@ =~= old(out)@ + spec_dec(n as nat));
    }
}

// ---------------------------------------------------------------------------
// String escaping
// ---------------------------------------------------------------------------

/// The lowercase hexadecimal digit for `d` (callers pass `0 <= d < 16`).
pub open spec fn spec_hex_digit(d: int) -> u8 {
    if d < 10 {
        (0x30 + d) as u8
    } else {
        (0x57 + d) as u8
    }
}

/// How one byte of a string value appears inside a JSON string: the quote
/// and the backslash get a two-byte escape, the common control characters
/// get their short escapes, every other control character becomes `\u00..`,
/// and everything else (including UTF-8 continuation bytes) passes through.
pub open spec fn spec_escape_byte(b: u8) -> Seq<u8> {
    if b == 0x22 {
        seq![0x5cu8, 0x22u8]
    } else if b == 0x5c {
        seq![0x5cu8, 0x5cu8]
    } else if b == 0x08 {
        seq![0x5cu8, 0x62u8]
    } else if b == 0x09 {
        seq![0x5cu8, 0x74u8]
    } else if b == 0x0a {
        seq![0x5cu8, 0x6eu8]
    } else if b == 0x0c {
        seq![0x5cu8, 0x66u8]
    } else if b == 0x0d {
        seq![0x5cu8, 0x72u8]
    } else if b < 0x20 {
        seq![
            0x5cu8,
            0x75u8,
            0x30u8,
            0x30u8,
            spec_hex_digit(b as int / 16),
            spec_hex_digit(b as int % 16),
        ]
    } else {
        seq![b]
    }
}

/// A whole byte string escaped for use inside a JSON string.
pub open spec fn spec_escape(s: Seq<u8>) -> Seq<u8>
    decreases s.len(),
{
    if s.len() == 0 {
        Seq::empty()
    } else {
        spec_escape_byte(s[0]) + spec_escape(s.drop_first())
    }
}

/// Escaping distributes over concatenation.
pub proof fn lemma_spec_escape_concat(a: Seq<u8>, b: Seq<u8>)
    ensures
        spec_escape(a + b) == spec_escape(a) + spec_escape(b),
    decreases a.len(),
{
    if a.len() == 0 {
        assert(a + b =~= b);
        assert(spec_escape(a) + spec_escape(b) =~= spec_escape(b));
    } else {
        assert((a + b)[0] == a[0]);
        assert((a + b).drop_first() =~= a.drop_first() + b);
        lemma_spec_escape_concat(a.drop_first(), b);
        assert(spec_escape(a + b) == spec_escape_byte(a[0]) + spec_escape(a.drop_first() + b));
        assert(spec_escape_byte(a[0]) + (spec_escape(a.drop_first()) + spec_escape(b)) =~= (
        spec_escape_byte(a[0]) + spec_escape(a.drop_first())) + spec_escape(b));
    }
}

/// Appends `s` escaped for use inside a JSON string.
pub fn push_escaped(out: &mut Vec<u8>, s: &[u8])
    ensures
        final(out)@ == old(out)@ + spec_escape(s@),
{
    let ghost base = out@;
    let mut i: usize = 0;
    while i < s.len()
        invariant
            i <= s@.len(),
            out@ == base + spec_escape(s@.take(i as int)),
        decreases s@.len() - i,
    {
        let b = s[i];
        proof {
            assert(s@.take(i as int + 1) =~= s@.take(i as int) + seq![s@[i as int]]);
            lemma_spec_escape_concat(s@.take(i as int), seq![s@[i as int]]);
            assert(seq![s@[i as int]].drop_first() =~= Seq::<u8>::empty());
            assert(spec_escape(Seq::<u8>::empty()) =~= Seq::<u8>::empty());
            assert(spec_escape(seq![s@[i as int]]) =~= spec_escape_byte(s@[i as int]));
        }
        if b == 0x22 {
            out.push(0x5c);
            out.push(0x22);
        } else if b == 0x5c {
            out.push(0x5c);
            out.push(0x5c);
        } else if b == 0x08 {
            out.push(0x5c);
            out.push(0x62);
        } else if b == 0x09 {
            out.push(0x5c);
            out.push(0x74);
        } else if b == 0x0a {
            out.push(0x5c);
            out.push(0x6e);
        } else if b == 0x0c {
            out.push(0x5c);
            out.push(0x66);
        } else if b == 0x0d {
            out.push(0x5c);
            out.push(0x72);
        } else if b < 0x20 {
            out.push(0x5c);
            out.push(0x75);
            out.push(0x30);
            out.push(0x30);
            let hi = b / 16;
            let lo = b % 16;
            out.push(if hi < 10 { 0x30 + hi } else { 0x57 + hi });
            out.push(if lo < 10 { 0x30 + lo } else { 0x57 + lo });
        } else {
            out.push(b);
        }
        proof {
            assert(out@ =~= base + spec_escape(s@.take(i as int + 1)));
        }
        i = i + 1;
    }
    proof {
        assert(s@.take(s@.len() as int) =~= s@);
    }
}

// ---------------------------------------------------------------------------
// Raw bytes
// ---------------------------------------------------------------------------

/// Appends the bytes of `s` unchanged.
pub fn push_bytes(out: &mut Vec<u8>, s: &[u8])
    ensures
        final(out)@ == old(out)@ + s@,
{
    let ghost base = out@;
    let mut i: usize = 0;
    while i < s.len()
        invariant
            i <= s@.len(),
            out@ == base + s@.take(i as int),
        decreases s@.len() - i,
    {
        out.push(s[i]);
        proof {
            assert(s@.take(i as int + 1) =~= s@.take(i as int).push(s@[i as int]));
        }
        i = i + 1;
    }
    proof {
        assert(s@.take(s@.len() as int) =~= s@);
    }
}

/// Appends the UTF-8 bytes of `s`.
pub fn push_str_bytes(out: &mut Vec<u8>, s: &str)
    ensures
        final(out)@ == old(out)@ + s.spec_bytes(),
{
    push_bytes(out, s.as_bytes());
}

// ---------------------------------------------------------------------------
// Color values
// ---------------------------------------------------------------------------

/// A color as a JSON array of its three channels.
pub open spec fn spec_color_json(c: RgbColor) -> Seq<u8> {
    seq![0x5bu8] + spec_dec(c.0 as nat) + seq![0x2cu8] + spec_dec(c.1 as nat) + seq![0x2cu8]
        + spec_dec(c.2 as nat) + seq![0x5du8]
}

/// Appends a color as a JSON array of its three channels.
pub fn push_color_json(out: &mut Vec<u8>, c: RgbColor)
    ensures
        final(out)@ == old(out)@ + spec_color_json(c),
{
    out.push(0x5b);
    push_dec_u64(out, c.0 as u64);
    out.push(0x2c);
    push_dec_u64(out, c.1 as u64);
    out.push(0x2c);
    push_dec_u64(out, c.2 as u64);
    out.push(0x5d);
    proof {
        assert(out@ =~= old(out)@ + spec_color_json(c));
    }
}

// ---------------------------------------------------------------------------
// The status report
// ---------------------------------------------------------------------------

/// The status report on the wire: one JSON object with the fields
/// `client_name`, `num_strip_leds`, `change_color_topic`, `last_changed`,
/// `current_color`, `last_color` and `is_subscribed`, in that order, with
/// the string values escaped and the colors as three-element arrays.
pub open spec fn spec_status_json(s: Status) -> Seq<u8> {
    encode_utf8("{\"client_name\":\""@) + spec_escape(encode_utf8(s.client_name@)) + encode_utf8(
        "\",\"num_strip_leds\":"@,
    ) + spec_dec(s.num_strip_leds as nat) + encode_utf8(",\"change_color_topic\":\""@)
        + spec_escape(encode_utf8(s.change_color_topic@)) + encode_utf8("\",\"last_changed\":"@)
        + spec_dec(s.last_changed as nat) + encode_utf8(",\"current_color\":"@) + spec_color_json(
        s.current_color,
    ) + encode_utf8(",\"last_color\":"@) + spec_color_json(s.last_color) + encode_utf8(
        ",\"is_subscribed\":"@,
    ) + (if s.is_subscribed {
        encode_utf8("true"@)
    } else {
        encode_utf8("false"@)
    }) + encode_utf8("}"@)
}

/// The serialized status report, byte for byte as `spec_status_json` states
/// it.
pub fn encode_status(s: &Status) -> (r: Vec<u8>)
    ensures
        r@ == spec_status_json(*s),
{
    let mut out: Vec<u8> = Vec::new();
    push_str_bytes(&mut out, "{\"client_name\":\"");
    push_escaped(&mut out, s.client_name.as_bytes());
    push_str_bytes(&mut out, "\",\"num_strip_leds\":");
    push_dec_u64(&mut out, s.num_strip_leds as u64);
    push_str_bytes(&mut out, ",\"change_color_topic\":\"");
    push_escaped(&mut out, s.change_color_topic.as_bytes());
    push_str_bytes(&mut out, "\",\"last_changed\":");
    push_dec_u64(&mut out, s.last_changed);
    push_str_bytes(&mut out, ",\"current_color\":");
    push_color_json(&mut out, s.current_color);
    push_str_bytes(&mut out, ",\"last_color\":");
    push_color_json(&mut out, s.last_color);
    push_str_bytes(&mut out, ",\"is_subscribed\":");
    if s.is_subscribed {
        push_str_bytes(&mut out, "true");
    } else {
        push_str_bytes(&mut out, "false");
    }
    push_str_bytes(&mut out, "}");
    proof {
        assert(out@ =~= spec_status_json(*s));
    }
    out
}

// ---------------------------------------------------------------------------
// The color command
// ---------------------------------------------------------------------------

/// The command payload is not in the command grammar (see the module
/// documentation).
#[derive(Clone, Copy, PartialEq, Eq, Structural, Debug)]
pub struct DecodeError;

/// One of the three channel members of a command object.
#[derive(Clone, Copy, PartialEq, Eq, Structural, Debug)]
pub enum ChannelKey {
    Red,
    Green,
    Blue,
}

/// The four JSON whitespace bytes.
pub open spec fn is_json_ws(b: u8) -> bool {
    b == 0x20 || b == 0x09 || b == 0x0a || b == 0x0d
}

/// An ASCII decimal digit.
pub open spec fn is_dec_digit(b: u8) -> bool {
    0x30 <= b <= 0x39
}

/// The first position at or after `i` that holds no JSON whitespace.
pub open spec fn spec_skip_ws(s: Seq<u8>, i: int) -> int
    decreases s.len() - i,
{
    if 0 <= i < s.len() && is_json_ws(s[i]) {
        spec_skip_ws(s, i + 1)
    } else {
        i
    }
}

/// The first position at or after `i` that holds no decimal digit.
pub open spec fn spec_digit_end(s: Seq<u8>, i: int) -> int
    decreases s.len() - i,
{
    if 0 <= i < s.len() && is_dec_digit(s[i]) {
        spec_digit_end(s, i + 1)
    } else {
        i
    }
}

/// The value of the digits of `s` between `i` and `j`, read as a decimal
/// number, most significant first.
pub open spec fn spec_digits_val(s: Seq<u8>, i: int, j: int) -> int
    decreases j - i,
{
    if j <= i {
        0
    } else {
        spec_digits_val(s, i, j - 1) * 10 + (s[j - 1] - 0x30)
    }
}

/// A channel value at `i`: one to three digits, no leading zero, at most
/// 255.  Yields the value and the position after the digits.
pub open spec fn spec_parse_u8(s: Seq<u8>, i: int) -> Option<(u8, int)> {
    let j = spec_digit_end(s, i);
    if j == i {
        None
    } else if j - i > 3 {
        None
    } else if s[i] == 0x30 && j - i > 1 {
        None
    } else if spec_digits_val(s, i, j) > 255 {
        None
    } else {
        Some((spec_digits_val(s, i, j) as u8, j))
    }
}

/// Whether the quoted key of the given channel starts at `i`.
pub open spec fn spec_key_at(s: Seq<u8>, i: int, k: ChannelKey) -> bool {
    match k {
        ChannelKey::Red => i + 5 <= s.len() && s[i] == 0x22 && s[i + 1] == 0x72 && s[i + 2] == 0x65
            && s[i + 3] == 0x64 && s[i + 4] == 0x22,
        ChannelKey::Green => i + 7 <= s.len() && s[i] == 0x22 && s[i + 1] == 0x67 && s[i + 2]
            == 0x72 && s[i + 3] == 0x65 && s[i + 4] == 0x65 && s[i + 5] == 0x6e && s[i + 6] == 0x22,
        ChannelKey::Blue => i + 6 <= s.len() && s[i] == 0x22 && s[i + 1] == 0x62 && s[i + 2] == 0x6c
            && s[i + 3] == 0x75 && s[i + 4] == 0x65 && s[i + 5] == 0x22,
    }
}

/// A quoted channel key at `i`; yields the key and the position after its
/// closing quote.
pub open spec fn spec_parse_key(s: Seq<u8>, i: int) -> Option<(ChannelKey, int)> {
    if spec_key_at(s, i, ChannelKey::Red) {
        Some((ChannelKey::Red, i + 5))
    } else if spec_key_at(s, i, ChannelKey::Green) {
        Some((ChannelKey::Green, i + 7))
    } else if spec_key_at(s, i, ChannelKey::Blue) {
        Some((ChannelKey::Blue, i + 6))
    } else {
        None
    }
}

/// One member at `i`: a channel key, optional whitespace, `:`, optional
/// whitespace, a channel value.  Yields the key, the value, and the position
/// after the digits.
pub open spec fn spec_parse_member(s: Seq<u8>, i: int) -> Option<((ChannelKey, u8), int)> {
    match spec_parse_key(s, i) {
        None => None,
        Some((k, i1)) => {
            let i2 = spec_skip_ws(s, i1);
            if i2 < s.len() && s[i2] == 0x3a {
                let i3 = spec_skip_ws(s, i2 + 1);
                match spec_parse_u8(s, i3) {
                    None => None,
                    Some((v, i4)) => Some(((k, v), i4)),
                }
            } else {
                None
            }
        },
    }
}

/// The three members read in order, assembled into a color if each channel
/// occurs exactly once.
pub open spec fn spec_assemble(
    k1: ChannelKey,
    v1: u8,
    k2: ChannelKey,
    v2: u8,
    k3: ChannelKey,
    v3: u8,
) -> Option<RgbColor> {
    if k1 == k2 || k1 == k3 || k2 == k3 {
        None
    } else {
        Some(
            (
                if k1 == ChannelKey::Red {
                    v1
                } else if k2 == ChannelKey::Red {
                    v2
                } else {
                    v3
                },
                if k1 == ChannelKey::Green {
                    v1
                } else if k2 == ChannelKey::Green {
                    v2
                } else {
                    v3
                },
                if k1 == ChannelKey::Blue {
                    v1
                } else if k2 == ChannelKey::Blue {
                    v2
                } else {
                    v3
                },
            ),
        )
    }
}

/// The color denoted by a whole command payload, or nothing when the payload
/// is not in the command grammar.
pub open spec fn spec_decode_color(s: Seq<u8>) -> Option<RgbColor> {
    let i0 = spec_skip_ws(s, 0);
    if !(i0 < s.len() && s[i0] == 0x7b) {
        None
    } else {
        match spec_parse_member(s, spec_skip_ws(s, i0 + 1)) {
            None => None,
            Some(((k1, v1), j1)) => {
                let i2 = spec_skip_ws(s, j1);
                if !(i2 < s.len() && s[i2] == 0x2c) {
                    None
                } else {
                    match spec_parse_member(s, spec_skip_ws(s, i2 + 1)) {
                        None => None,
                        Some(((k2, v2), j2)) => {
                            let i4 = spec_skip_ws(s, j2);
                            if !(i4 < s.len() && s[i4] == 0x2c) {
                                None
                            } else {
                                match spec_parse_member(s, spec_skip_ws(s, i4 + 1)) {
                                    None => None,
                                    Some(((k3, v3), j3)) => {
                                        let i6 = spec_skip_ws(s, j3);
                                        if !(i6 < s.len() && s[i6] == 0x7d) {
                                            None
                                        } else if spec_skip_ws(s, i6 + 1) != s.len() {
                                            None
                                        } else {
                                            spec_assemble(k1, v1, k2, v2, k3, v3)
                                        }
                                    },
                                }
                            }
                        },
                    }
                }
            },
        }
    }
}

/// The first position at or after `i` that holds no JSON whitespace.
fn skip_ws(s: &[u8], i: usize) -> (j: usize)
    requires
        i <= s@.len(),
    ensures
        j as int == spec_skip_ws(s@, i as int),
        i <= j <= s@.len(),
{
    let mut j: usize = i;
    while j < s.len() && (s[j] == 0x20 || s[j] == 0x09 || s[j] == 0x0a || s[j] == 0x0d)
        invariant
            i <= j <= s@.len(),
            spec_skip_ws(s@, i as int) == spec_skip_ws(s@, j as int),
        decreases s@.len() - j,
    {
        proof {
            assert(spec_skip_ws(s@, j as int) == spec_skip_ws(s@, j as int + 1));
        }
        j = j + 1;
    }
    proof {
        assert(spec_skip_ws(s@, j as int) == j as int);
    }
    j
}

/// The first position at or after `i` that holds no decimal digit.
fn digit_end(s: &[u8], i: usize) -> (j: usize)
    requires
        i <= s@.len(),
    ensures
        j as int == spec_digit_end(s@, i as int),
        i <= j <= s@.len(),
        forall|t: int| i <= t < j ==> is_dec_digit(s@[t]),
{
    let mut j: usize = i;
    while j < s.len() && 0x30 <= s[j] && s[j] <= 0x39
        invariant
            i <= j <= s@.len(),
            spec_digit_end(s@, i as int) == spec_digit_end(s@, j as int),
            forall|t: int| i <= t < j ==> is_dec_digit(s@[t]),
        decreases s@.len() - j,
    {
        proof {
            assert(spec_digit_end(s@, j as int) == spec_digit_end(s@, j as int + 1));
        }
        j = j + 1;
    }
    proof {
        assert(spec_digit_end(s@, j as int) == j as int);
    }
    j
}

/// A channel value at `i`, as `spec_parse_u8` states it.
fn parse_u8_at(s: &[u8], i: usize) -> (r: Option<(u8, usize)>)
    requires
        i <= s@.len(),
    ensures
        match r {
            Some((v, j)) => spec_parse_u8(s@, i as int) == Some((v, j as int)) && i < j
                <= s@.len(),
            None => spec_parse_u8(s@, i as int) is None,
        },
{
    let j = digit_end(s, i);
    if j == i {
        return None;
    }
    if j - i > 3 {
        return None;
    }
    if s[i] == 0x30 && j - i > 1 {
        return None;
    }
    let mut val: u32 = (s[i] - 0x30) as u32;
    proof {
        assert(spec_digits_val(s@, i as int, i as int) == 0);
        assert(spec_digits_val(s@, i as int, i as int + 1) == s@[i as int] - 0x30);
    }
    if j - i >= 2 {
        val = val * 10 + (s[i + 1] - 0x30) as u32;
        proof {
            assert(spec_digits_val(s@, i as int, i as int + 2) == spec_digits_val(
                s@,
                i as int,
                i as int + 1,
            ) * 10 + (s@[i as int + 1] - 0x30));
        }
    }
    if j - i == 3 {
        val = val * 10 + (s[i + 2] - 0x30) as u32;
        proof {
            assert(spec_digits_val(s@, i as int, i as int + 3) == spec_digits_val(
                s@,
                i as int,
                i as int + 2,
            ) * 10 + (s@[i as int + 2] - 0x30));
        }
    }
    if val > 255 {
        return None;
    }
    Some((val as u8, j))
}

/// A quoted channel key at `i`, as `spec_parse_key` states it.
fn parse_key_at(s: &[u8], i: usize) -> (r: Option<(ChannelKey, usize)>)
    requires
        i <= s@.len(),
    ensures
        match r {
            Some((k, j)) => spec_parse_key(s@, i as int) == Some((k, j as int)) && i < j
                <= s@.len(),
            None => spec_parse_key(s@, i as int) is None,
        },
{
    if s.len() - i >= 5 && s[i] == 0x22 && s[i + 1] == 0x72 && s[i + 2] == 0x65 && s[i + 3] == 0x64
        && s[i + 4] == 0x22 {
        Some((ChannelKey::Red, i + 5))
    } else if s.len() - i >= 7 && s[i] == 0x22 && s[i + 1] == 0x67 && s[i + 2] == 0x72 && s[i + 3]
        == 0x65 && s[i + 4] == 0x65 && s[i + 5] == 0x6e && s[i + 6] == 0x22 {
        Some((ChannelKey::Green, i + 7))
    } else if s.len() - i >= 6 && s[i] == 0x22 && s[i + 1] == 0x62 && s[i + 2] == 0x6c && s[i + 3]
        == 0x75 && s[i + 4] == 0x65 && s[i + 5] == 0x22 {
        Some((ChannelKey::Blue, i + 6))
    } else {
        None
    }
}

/// One member at `i`, as `spec_parse_member` states it.
fn parse_member_at(s: &[u8], i: usize) -> (r: Option<((ChannelKey, u8), usize)>)
    requires
        i <= s@.len(),
    ensures
        match r {
            Some(((k, v), j)) => spec_parse_member(s@, i as int) == Some(((k, v), j as int)) && i
                < j <= s@.len(),
            None => spec_parse_member(s@, i as int) is None,
        },
{
    let (k, i1) = match parse_key_at(s, i) {
        None => {
            return None;
        },
        Some(p) => p,
    };
    let i2 = skip_ws(s, i1);
    if !(i2 < s.len() && s[i2] == 0x3a) {
        return None;
    }
    let i3 = skip_ws(s, i2 + 1);
    match parse_u8_at(s, i3) {
        None => None,
        Some((v, i4)) => Some(((k, v), i4)),
    }
}

/// Decodes a command payload: yields the commanded color exactly when the
/// payload is in the command grammar, and an error for every other input.
pub fn decode_color_command(data: &[u8]) -> (r: Result<RgbColor, DecodeError>)
    ensures
        r matches Ok(c) ==> spec_decode_color(data@) == Some(c),
        r is Err ==> spec_decode_color(data@) is None,
{
    let i0 = skip_ws(data, 0);
    if !(i0 < data.len() && data[i0] == 0x7b) {
        return Err(DecodeError);
    }
    let i1 = skip_ws(data, i0 + 1);
    let ((k1, v1), j1) = match parse_member_at(data, i1) {
        None => {
            return Err(DecodeError);
        },
        Some(p) => p,
    };
    let i2 = skip_ws(data, j1);
    if !(i2 < data.len() && data[i2] == 0x2c) {
        return Err(DecodeError);
    }
    let i3 = skip_ws(data, i2 + 1);
    let ((k2, v2), j2) = match parse_member_at(data, i3) {
        None => {
            return Err(DecodeError);
        },
        Some(p) => p,
    };
    let i4 = skip_ws(data, j2);
    if !(i4 < data.len() && data[i4] == 0x2c) {
        return Err(DecodeError);
    }
    let i5 = skip_ws(data, i4 + 1);
    let ((k3, v3), j3) = match parse_member_at(data, i5) {
        None => {
            return Err(DecodeError);
        },
        Some(p) => p,
    };
    let i6 = skip_ws(data, j3);
    if !(i6 < data.len() && data[i6] == 0x7d) {
        return Err(DecodeError);
    }
    if skip_ws(data, i6 + 1) != data.len() {
        return Err(DecodeError);
    }
    if k1 == k2 || k1 == k3 || k2 == k3 {
        return Err(DecodeError);
    }
    let red = if k1 == ChannelKey::Red {
        v1
    } else if k2 == ChannelKey::Red {
        v2
    } else {
        v3
    };
    let green = if k1 == ChannelKey::Green {
        v1
    } else if k2 == ChannelKey::Green {
        v2
    } else {
        v3
    };
    let blue = if k1 == ChannelKey::Blue {
        v1
    } else if k2 == ChannelKey::Blue {
        v2
    } else {
        v3
    };
    Ok((red, green, blue))
}

} // verus!
