//! Trace context as the W3C `traceparent` header carries it.
//!
//! The header value is 55 ASCII characters: the version as 2 hex digits, the
//! trace id as 32, the parent id as 16 and the flags as 2, with a hyphen
//! between one field and the next.

use vstd::prelude::*;
use vstd::string::StringSliceAdditionalSpecFns;
use vstd::utf8::{encode_utf8, is_ascii_chars, is_ascii_chars_encode_utf8};
use hyper::header::HeaderValue;
use rand::Rng;
use crate::hex::{
    all_hex, ascii, hex, hex_value, lemma_hex_len, lemma_hex_round_trip, lemma_pow16_values,
    parse_hex, push_hex,
};

verus! {

/// The name of the header that carries what the application adds to a
/// trace.
pub const BAGGAGE_HEADER: &'static str = "baggage";

/// The name of the header that carries the trace context.
pub const TRACEPARENT_HEADER: &'static str = "traceparent";

/// The length of a `traceparent` value.
pub const TRACEPARENT_LEN: usize = 55;

/// A trace context.
#[derive(Clone, Copy, Debug, PartialEq, Eq, Structural)]
pub struct TraceParent {
    pub version: u8,
    pub trace_id: u128,
    pub parent_id: u64,
    pub flags: u8,
}

/// The fields of a `traceparent` value, in their order.
#[derive(Clone, Copy, Debug, PartialEq, Eq, Structural)]
pub enum Field {
    Version,
    TraceId,
    ParentId,
    Flags,
}

/// Why a text is no `traceparent` value.
#[derive(Clone, Copy, Debug, PartialEq, Eq, Structural)]
pub enum ParseError {
    /// The text has this many bytes, and not 55.
    Length(usize),
    /// This field is the first that is not made of hex digits alone, or
    /// that is not followed by a hyphen.
    Hex(Field),
}

/// The hyphen.
pub open spec fn dash() -> u8 {
    0x2d
}

/// Whether the `width` bytes of `s` from `start` are a field: hex digits,
/// and after them a hyphen or the end of `s`.
pub open spec fn is_field(s: Seq<u8>, start: int, width: int) -> bool {
    &&& all_hex(s.subrange(start, start + width))
    &&& start + width == s.len() || s[start + width] == dash()
}

/// The number in the field of `s` at `start`.
pub open spec fn field(s: Seq<u8>, start: int, width: int) -> nat {
    hex_value(s.subrange(start, start + width))
}

/// What a text of these bytes parses to.
pub open spec fn parse(s: Seq<u8>) -> Result<TraceParent, ParseError> {
    if s.len() != 55 {
        Err(ParseError::Length(s.len() as usize))
    } else if !is_field(s, 0, 2) {
        Err(ParseError::Hex(Field::Version))
    } else if !is_field(s, 3, 32) {
        Err(ParseError::Hex(Field::TraceId))
    } else if !is_field(s, 36, 16) {
        Err(ParseError::Hex(Field::ParentId))
    } else if !is_field(s, 53, 2) {
        Err(ParseError::Hex(Field::Flags))
    } else {
        Ok(
            TraceParent {
                version: field(s, 0, 2) as u8,
                trace_id: field(s, 3, 32) as u128,
                parent_id: field(s, 36, 16) as u64,
                flags: field(s, 53, 2) as u8,
            },
        )
    }
}

/// What the bytes of a valid header value may be: 32 and above but for 127,
/// and the tab.
pub open spec fn is_header_byte(b: u8) -> bool {
    b >= 32 && b != 127 || b == 9
}

/// `hyper::header::HeaderValue`: the value of an HTTP header, a run of
/// bytes. What it holds is known by [`header_value_bytes`] alone.
#[verifier::external_type_specification]
#[verifier::external_body]
pub struct ExHeaderValue(HeaderValue);

/// The bytes that a header value holds, as `HeaderValue::as_bytes` gives
/// them.
pub uninterp spec fn header_value_bytes(value: HeaderValue) -> Seq<u8>;

/// `HeaderValue::from_bytes`: a header value that holds `bytes`, where each
/// of them may stand in a header value, else nothing.
#[verifier::external_body]
fn header_value_from_bytes(bytes: &[u8]) -> (r: Option<HeaderValue>)
    ensures
        r is Some <==> forall|i: int| 0 <= i < bytes@.len() ==> is_header_byte(#[trigger] bytes@[i]),
        r matches Some(v) ==> header_value_bytes(v) == bytes@,
{
    HeaderValue::from_bytes(bytes).ok()
}

/// `Rng::gen` on the generator of the thread, for a `u128` and then a `u64`.
/// Nothing is known of what comes back.
#[verifier::external_body]
fn random_ids() -> (ids: (u128, u64)) {
    let mut rng = rand::thread_rng();
    (rng.gen(), rng.gen())
}

impl TraceParent {
    /// The header value of the trace context, as bytes.
    pub open spec fn text(self) -> Seq<u8> {
        hex(self.version as nat, 2) + seq![dash()] + hex(self.trace_id as nat, 32) + seq![dash()]
            + hex(self.parent_id as nat, 16) + seq![dash()] + hex(self.flags as nat, 2)
    }

    /// A trace context of version 0 with these ids and no flags.
    pub fn with_ids(trace_id: u128, parent_id: u64) -> (tp: TraceParent)
        ensures
            tp == (TraceParent { version: 0, trace_id, parent_id, flags: 0 }),
    {
        TraceParent { version: 0, trace_id, parent_id, flags: 0 }
    }

    /// A fresh trace context: version 0, no flags, random ids.
    pub fn new() -> (tp: TraceParent)
        ensures
            tp.version == 0,
            tp.flags == 0,
    {
        let (trace_id, parent_id) = random_ids();
        TraceParent::with_ids(trace_id, parent_id)
    }

    /// Parses a `traceparent` header value.
    ///
    /// The text must have 55 bytes, else its length is reported. Its fields
    /// are looked at in order, and the first that is not in place is
    /// reported. Hex digits of either case are taken.
    pub fn try_from(value: &str) -> (r: Result<TraceParent, ParseError>)
        ensures
            r == parse(value.spec_bytes()),
    {
        let bytes = value.as_bytes();
        if bytes.len() != TRACEPARENT_LEN {
            return Err(ParseError::Length(bytes.len()));
        }
        proof {
            lemma_pow16_values();
        }
        let version = match parse_hex(bytes, 0, 2) {
            Some(v) if bytes[2] == 0x2d => v as u8,
            _ => { return Err(ParseError::Hex(Field::Version)); },
        };
        let trace_id = match parse_hex(bytes, 3, 32) {
            Some(v) if bytes[35] == 0x2d => v,
            _ => { return Err(ParseError::Hex(Field::TraceId)); },
        };
        let parent_id = match parse_hex(bytes, 36, 16) {
            Some(v) if bytes[52] == 0x2d => v as u64,
            _ => { return Err(ParseError::Hex(Field::ParentId)); },
        };
        let flags = match parse_hex(bytes, 53, 2) {
            Some(v) => v as u8,
            None => { return Err(ParseError::Hex(Field::Flags)); },
        };
        Ok(TraceParent { version, trace_id, parent_id, flags })
    }

    /// The header value of the trace context, see [`TraceParent::text`].
    pub fn traceparent(&self) -> (s: String)
        ensures
            s@ == ascii(self.text()),
            encode_utf8(s@) == self.text(),
    {
        proof {
            reveal_strlit("-");
        }
        let mut s = String::new();
        push_hex(&mut s, self.version as u128, 2);
        s.append("-");
        push_hex(&mut s, self.trace_id, 32);
        s.append("-");
        push_hex(&mut s, self.parent_id as u128, 16);
        s.append("-");
        push_hex(&mut s, self.flags as u128, 2);
        proof {
            assert("-"@ =~= ascii(seq![dash()]));
            assert(s@ =~= ascii(self.text()));
            lemma_text_is_ascii(*self);
        }
        s
    }

    /// The trace id alone, as 32 hex digits.
    pub fn to_string(&self) -> (s: String)
        ensures
            s@ == ascii(hex(self.trace_id as nat, 32)),
    {
        let mut s = String::new();
        push_hex(&mut s, self.trace_id, 32);
        assert(s@ =~= ascii(hex(self.trace_id as nat, 32)));
        s
    }

    /// The trace context as the value of a `traceparent` header.
    pub fn header(&self) -> (value: HeaderValue)
        ensures
            header_value_bytes(value) == self.text(),
    {
        let s = self.traceparent();
        proof {
            lemma_text_is_ascii(*self);
        }
        match header_value_from_bytes(s.as_str().as_bytes()) {
            Some(value) => value,
            None => {
                proof {
                    lemma_text_is_header(*self);
                }
                vstd::pervasive::unreached()
            },
        }
    }
}

/// The header value of a trace context has 55 bytes, all of them ASCII, so
/// that as text it takes the same bytes.
pub proof fn lemma_text_is_ascii(tp: TraceParent)
    ensures
        tp.text().len() == 55,
        is_ascii_chars(ascii(tp.text())),
        encode_utf8(ascii(tp.text())) == tp.text(),
{
    lemma_text_is_header(tp);
    let t = tp.text();
    assert(is_ascii_chars(ascii(t))) by {
        assert forall|i: int| 0 <= i < ascii(t).len() implies '\0' <= #[trigger] ascii(t)[i]
            <= '\u{7f}' by {
            assert(32 <= t[i] < 127);
        }
    }
    is_ascii_chars_encode_utf8(ascii(t));
    assert(encode_utf8(ascii(t)) =~= t) by {
        assert forall|i: int| 0 <= i < t.len() implies encode_utf8(ascii(t))[i] == t[i] by {
            assert(ascii(t)[i] as u8 == encode_utf8(ascii(t))[i]);
            assert(32 <= t[i] < 127);
        }
    }
}

/// Each byte of the header value of a trace context is a hex digit or a
/// hyphen.
pub proof fn lemma_text_is_header(tp: TraceParent)
    ensures
        tp.text().len() == 55,
        forall|i: int| 0 <= i < 55 ==> 32 <= #[trigger] tp.text()[i] < 127,
{
    lemma_hex_len(tp.version as nat, 2);
    lemma_hex_len(tp.trace_id as nat, 32);
    lemma_hex_len(tp.parent_id as nat, 16);
    lemma_hex_len(tp.flags as nat, 2);
    let t = tp.text();
    assert forall|i: int| 0 <= i < 55 implies 32 <= #[trigger] t[i] < 127 by {
        if i < 2 {
            assert(t[i] == hex(tp.version as nat, 2)[i]);
        } else if i == 2 {
        } else if i < 35 {
            assert(t[i] == hex(tp.trace_id as nat, 32)[i - 3]);
        } else if i == 35 {
        } else if i < 52 {
            assert(t[i] == hex(tp.parent_id as nat, 16)[i - 36]);
        } else if i == 52 {
        } else {
            assert(t[i] == hex(tp.flags as nat, 2)[i - 53]);
        }
    }
}

/// Parsing the header value of a trace context gives that trace context
/// back, whatever its fields hold.
pub proof fn lemma_parse_text(tp: TraceParent)
    ensures
        parse(tp.text()) == Ok::<TraceParent, ParseError>(tp),
{
    lemma_pow16_values();
    lemma_hex_round_trip(tp.version as nat, 2);
    lemma_hex_round_trip(tp.trace_id as nat, 32);
    lemma_hex_round_trip(tp.parent_id as nat, 16);
    lemma_hex_round_trip(tp.flags as nat, 2);
    let t = tp.text();
    assert(t.len() == 55);
    assert(t.subrange(0, 2) =~= hex(tp.version as nat, 2));
    assert(t.subrange(3, 35) =~= hex(tp.trace_id as nat, 32));
    assert(t.subrange(36, 52) =~= hex(tp.parent_id as nat, 16));
    assert(t.subrange(53, 55) =~= hex(tp.flags as nat, 2));
    assert(t[2] == dash() && t[35] == dash() && t[52] == dash());
}

/// A text that is not 55 bytes long fails for its length, and a text of 55
/// bytes with a field that is no hex number fails for that field's digits.
pub proof fn lemma_parse_rejects(s: Seq<u8>)
    ensures
        s.len() != 55 ==> parse(s) == Err::<TraceParent, ParseError>(
            ParseError::Length(s.len() as usize),
        ),
        s.len() == 55 && !(all_hex(s.subrange(0, 2)) && all_hex(s.subrange(3, 35)) && all_hex(
            s.subrange(36, 52),
        ) && all_hex(s.subrange(53, 55))) ==> parse(s) matches Err(ParseError::Hex(_)),
{
}

} // verus!
