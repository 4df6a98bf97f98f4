use proxy_core::trace::{
    Field, ParseError, TraceParent, BAGGAGE_HEADER, TRACEPARENT_HEADER, TRACEPARENT_LEN,
};

const SAMPLE: &str = "00-4bf92f3577b34da6a3ce929d0e0e4736-00f067aa0ba902b7-01";

fn sample() -> TraceParent {
    TraceParent {
        version: 0,
        trace_id: 0x4bf92f3577b34da6a3ce929d0e0e4736,
        parent_id: 0x00f067aa0ba902b7,
        flags: 1,
    }
}

#[test]
fn header_names() {
    assert_eq!(BAGGAGE_HEADER, "baggage");
    assert_eq!(TRACEPARENT_HEADER, "traceparent");
    assert_eq!(TRACEPARENT_LEN, 55);
}

#[test]
fn parses_a_traceparent() {
    let tp = TraceParent::try_from(SAMPLE).unwrap();
    assert_eq!(tp.version, 0);
    assert_eq!(tp.trace_id, 0x4bf92f3577b34da6a3ce929d0e0e4736);
    assert_eq!(tp.parent_id, 0x00f067aa0ba902b7);
    assert_eq!(tp.flags, 1);
}

#[test]
fn parses_upper_case_digits() {
    let tp = TraceParent::try_from("FF-4BF92F3577B34DA6A3CE929D0E0E4736-00F067AA0BA902B7-aB").unwrap();
    assert_eq!(
        tp,
        TraceParent {
            version: 0xff,
            trace_id: 0x4bf92f3577b34da6a3ce929d0e0e4736,
            parent_id: 0x00f067aa0ba902b7,
            flags: 0xab,
        }
    );
}

#[test]
fn parses_the_largest_values() {
    let tp = TraceParent::try_from("ff-ffffffffffffffffffffffffffffffff-ffffffffffffffff-ff").unwrap();
    assert_eq!(
        tp,
        TraceParent { version: u8::MAX, trace_id: u128::MAX, parent_id: u64::MAX, flags: u8::MAX }
    );
}

#[test]
fn rejects_other_lengths() {
    assert_eq!(TraceParent::try_from(""), Err(ParseError::Length(0)));
    assert_eq!(TraceParent::try_from("00-abc"), Err(ParseError::Length(6)));
    assert_eq!(TraceParent::try_from(&SAMPLE[..54]), Err(ParseError::Length(54)));
    let longer = format!("{SAMPLE}0");
    assert_eq!(TraceParent::try_from(&longer), Err(ParseError::Length(56)));
}

#[test]
fn length_is_counted_in_bytes() {
    // 54 characters, 55 bytes.
    let text = format!("{}\u{e9}", &SAMPLE[..53]);
    assert_eq!(text.len(), 55);
    assert_eq!(TraceParent::try_from(&text), Err(ParseError::Hex(Field::Flags)));
    // 55 characters, 56 bytes.
    let text = format!("{}\u{e9}", &SAMPLE[..54]);
    assert_eq!(TraceParent::try_from(&text), Err(ParseError::Length(56)));
}

#[test]
fn rejects_a_field_that_is_not_hex() {
    let cases = [
        ("0g-4bf92f3577b34da6a3ce929d0e0e4736-00f067aa0ba902b7-01", Field::Version),
        ("00-4bf92f3577b34da6a3ce929d0e0e473g-00f067aa0ba902b7-01", Field::TraceId),
        ("00-4bf92f3577b34da6a3ce929d0e0e4736-00f067aa0ba902bx-01", Field::ParentId),
        ("00-4bf92f3577b34da6a3ce929d0e0e4736-00f067aa0ba902b7-0 ", Field::Flags),
        ("+0-4bf92f3577b34da6a3ce929d0e0e4736-00f067aa0ba902b7-01", Field::Version),
    ];
    for (text, field) in cases {
        assert_eq!(text.len(), 55);
        assert_eq!(TraceParent::try_from(text), Err(ParseError::Hex(field)));
    }
}

#[test]
fn rejects_fields_of_other_widths() {
    let cases = [
        ("0-04bf92f3577b34da6a3ce929d0e0e4736-00f067aa0ba902b7-01", Field::Version),
        ("00-4bf92f3577b34da6a3ce929d0e0e47360-0f067aa0ba902b7-01", Field::TraceId),
        ("00-4bf92f3577b34da6a3ce929d0e0e4736-00f067aa0ba902b-701", Field::ParentId),
        ("00-4bf92f3577b34da6a3ce929d0e0e4736-00f067aa0ba902b7001", Field::ParentId),
        ("0000000000000000000000000000000000000000000000000000000", Field::Version),
    ];
    for (text, field) in cases {
        assert_eq!(text.len(), 55);
        assert_eq!(TraceParent::try_from(text), Err(ParseError::Hex(field)));
    }
}

#[test]
fn first_bad_field_is_reported() {
    let text = "00-4bf92f3577b34da6a3ce929d0e0e473g-00f067aa0ba902bx-0y";
    assert_eq!(TraceParent::try_from(text), Err(ParseError::Hex(Field::TraceId)));
}

#[test]
fn formats_a_traceparent() {
    let tp = sample();
    assert_eq!(tp.traceparent(), SAMPLE);
    assert_eq!(tp.to_string(), "4bf92f3577b34da6a3ce929d0e0e4736");
}

#[test]
fn formats_with_leading_zeros() {
    let tp = TraceParent { version: 0, trace_id: 1, parent_id: 2, flags: 0 };
    assert_eq!(tp.traceparent(), "00-00000000000000000000000000000001-0000000000000002-00");
    assert_eq!(tp.to_string(), "00000000000000000000000000000001");
    let tp = TraceParent { version: 0xa, trace_id: u128::MAX, parent_id: u64::MAX, flags: 0xf0 };
    assert_eq!(tp.traceparent(), "0a-ffffffffffffffffffffffffffffffff-ffffffffffffffff-f0");
}

#[test]
fn header_value_holds_the_text() {
    assert_eq!(sample().header().as_bytes(), SAMPLE.as_bytes());
}

#[test]
fn text_parses_back() {
    let values = [
        sample(),
        TraceParent { version: 0, trace_id: 0, parent_id: 0, flags: 0 },
        TraceParent { version: 255, trace_id: u128::MAX, parent_id: u64::MAX, flags: 255 },
        TraceParent { version: 1, trace_id: 1 << 127, parent_id: 1 << 63, flags: 0x80 },
        TraceParent::with_ids(0xdead_beef, 0xfeed),
        TraceParent::new(),
    ];
    for tp in values {
        let text = tp.traceparent();
        assert_eq!(text.len(), 55);
        assert_eq!(TraceParent::try_from(&text), Ok(tp));
    }
}

#[test]
fn fresh_trace_has_version_and_flags_zero() {
    let a = TraceParent::new();
    assert_eq!(a.version, 0);
    assert_eq!(a.flags, 0);
    assert_eq!(
        TraceParent::with_ids(7, 9),
        TraceParent { version: 0, trace_id: 7, parent_id: 9, flags: 0 }
    );
}

#[test]
fn fresh_traces_differ() {
    // Two draws of 192 random bits that are equal mean that nothing was drawn.
    let a = TraceParent::new();
    let b = TraceParent::new();
    assert_ne!((a.trace_id, a.parent_id), (b.trace_id, b.parent_id));
}
