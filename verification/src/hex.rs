//! Fixed-width hexadecimal numbers as ASCII bytes.

use vstd::prelude::*;

verus! {

/// Whether `b` is one of `0-9`, `a-f`, `A-F`.
pub open spec fn is_hex_digit(b: u8) -> bool {
    (0x30 <= b <= 0x39) || (0x61 <= b <= 0x66) || (0x41 <= b <= 0x46)
}

/// The number that the hex digit `b` stands for.
pub open spec fn digit_value(b: u8) -> nat
    recommends
        is_hex_digit(b),
{
    if b <= 0x39 {
        (b - 0x30) as nat
    } else if 0x61 <= b {
        (b - 0x61 + 10) as nat
    } else {
        (b - 0x41 + 10) as nat
    }
}

/// The lower-case hex digit for `v`.
pub open spec fn hex_digit(v: nat) -> u8
    recommends
        v < 16,
{
    if v < 10 {
        (0x30 + v) as u8
    } else {
        (0x61 + v - 10) as u8
    }
}

/// Whether `s` is made of hex digits only.
pub open spec fn all_hex(s: Seq<u8>) -> bool {
    forall|i: int| 0 <= i < s.len() ==> is_hex_digit(#[trigger] s[i])
}

/// The number that the hex digits `s` stand for, most significant first.
pub open spec fn hex_value(s: Seq<u8>) -> nat
    decreases s.len(),
{
    if s.len() == 0 {
        0
    } else {
        16 * hex_value(s.drop_last()) + digit_value(s.last())
    }
}

/// `value` as `width` lower-case hex digits, most significant first, with
/// zeros in front. Where `value` needs more digits the lowest `width` stay.
pub open spec fn hex(value: nat, width: nat) -> Seq<u8>
    decreases width,
{
    if width == 0 {
        Seq::empty()
    } else {
        hex(value / 16, (width - 1) as nat).push(hex_digit(value % 16))
    }
}

/// 16 to the power of `n`.
pub open spec fn pow16(n: nat) -> nat
    decreases n,
{
    if n == 0 {
        1
    } else {
        16 * pow16((n - 1) as nat)
    }
}

/// ASCII bytes as text.
pub open spec fn ascii(bytes: Seq<u8>) -> Seq<char> {
    Seq::new(bytes.len(), |i: int| bytes[i] as char)
}

pub proof fn lemma_pow16_values()
    ensures
        pow16(2) == 0x100,
        pow16(16) == 0x1_0000_0000_0000_0000,
        pow16(32) == 0x1_0000_0000_0000_0000_0000_0000_0000_0000,
{
    assert(pow16(2) == 0x100) by {
        reveal_with_fuel(pow16, 3);
    }
    assert(pow16(4) == 0x100 * 0x100) by {
        lemma_pow16_add(2, 2);
    }
    assert(pow16(8) == 0x1_0000 * 0x1_0000) by {
        lemma_pow16_add(4, 4);
    }
    assert(pow16(16) == 0x1_0000_0000 * 0x1_0000_0000) by {
        lemma_pow16_add(8, 8);
    }
    assert(pow16(32) == 0x1_0000_0000_0000_0000 * 0x1_0000_0000_0000_0000) by {
        lemma_pow16_add(16, 16);
    }
}

pub proof fn lemma_pow16_add(a: nat, b: nat)
    ensures
        pow16(a + b) == pow16(a) * pow16(b),
    decreases a,
{
    if a == 0 {
        assert(pow16(0) == 1);
        assert(1 * pow16(b) == pow16(b));
    } else {
        lemma_pow16_add((a - 1) as nat, b);
        assert(pow16(a + b) == 16 * pow16((a - 1 + b) as nat));
        assert(16 * (pow16((a - 1) as nat) * pow16(b)) == (16 * pow16((a - 1) as nat)) * pow16(b))
            by (nonlinear_arith);
    }
}

pub proof fn lemma_pow16_monotonic(a: nat, b: nat)
    requires
        a <= b,
    ensures
        0 < pow16(a) <= pow16(b),
    decreases b,
{
    if b == 0 {
    } else if a < b {
        lemma_pow16_monotonic(a, (b - 1) as nat);
    } else {
        lemma_pow16_monotonic((a - 1) as nat, (b - 1) as nat);
    }
}

/// Hex digits of length `n` stand for a number below `16^n`.
pub proof fn lemma_hex_value_bound(s: Seq<u8>)
    requires
        all_hex(s),
    ensures
        hex_value(s) < pow16(s.len()),
    decreases s.len(),
{
    if s.len() > 0 {
        assert(all_hex(s.drop_last())) by {
            assert forall|i: int| 0 <= i < s.drop_last().len() implies is_hex_digit(
                #[trigger] s.drop_last()[i],
            ) by {
                assert(s.drop_last()[i] == s[i]);
            }
        }
        lemma_hex_value_bound(s.drop_last());
        assert(is_hex_digit(s.last()));
    }
}

/// Writing a number in hex and reading it back gives the number, where the
/// width is enough for it.
pub proof fn lemma_hex_round_trip(value: nat, width: nat)
    requires
        value < pow16(width),
    ensures
        hex(value, width).len() == width,
        all_hex(hex(value, width)),
        hex_value(hex(value, width)) == value,
    decreases width,
{
    if width > 0 {
        let front = hex(value / 16, (width - 1) as nat);
        lemma_hex_round_trip(value / 16, (width - 1) as nat);
        let d = hex_digit(value % 16);
        assert(is_hex_digit(d) && digit_value(d) == value % 16);
        assert(front.push(d).drop_last() =~= front);
        assert(front.push(d).last() == d);
        assert forall|i: int| 0 <= i < front.push(d).len() implies is_hex_digit(
            #[trigger] front.push(d)[i],
        ) by {
            if i < front.len() {
                assert(front.push(d)[i] == front[i]);
            }
        }
    }
}

/// The length of a number written in hex is the width asked for.
pub proof fn lemma_hex_len(value: nat, width: nat)
    ensures
        hex(value, width).len() == width,
        forall|i: int|
            0 <= i < width ==> {
                let b = #[trigger] hex(value, width)[i];
                (0x30 <= b <= 0x39) || (0x61 <= b <= 0x66)
            },
    decreases width,
{
    if width > 0 {
        lemma_hex_len(value / 16, (width - 1) as nat);
    }
}

/// The value of the hex digit `b`, if it is one.
pub fn digit_of(b: u8) -> (r: Option<u8>)
    ensures
        r == if is_hex_digit(b) {
            Some(digit_value(b) as u8)
        } else {
            None
        },
{
    if 0x30 <= b && b <= 0x39 {
        Some(b - 0x30)
    } else if 0x61 <= b && b <= 0x66 {
        Some(b - 0x61 + 10)
    } else if 0x41 <= b && b <= 0x46 {
        Some(b - 0x41 + 10)
    } else {
        None
    }
}

/// Reads the `width` hex digits of `bytes` that start at `start`: their
/// value, or `None` where one of them is not a hex digit.
pub fn parse_hex(bytes: &[u8], start: usize, width: usize) -> (r: Option<u128>)
    requires
        start + width <= bytes@.len(),
        width <= 32,
    ensures
        match r {
            Some(v) => all_hex(bytes@.subrange(start as int, start + width)) && v == hex_value(
                bytes@.subrange(start as int, start + width),
            ) && v < pow16(width as nat),
            None => !all_hex(bytes@.subrange(start as int, start + width)),
        },
{
    let len = bytes.len();
    let mut acc: u128 = 0;
    let mut i: usize = 0;
    while i < width
        invariant
            i <= width <= 32,
            start + width <= bytes@.len() == len,
            all_hex(bytes@.subrange(start as int, start + i)),
            acc == hex_value(bytes@.subrange(start as int, start + i)),
        decreases width - i,
    {
        let ghost done = bytes@.subrange(start as int, start + i);
        let ghost more = bytes@.subrange(start as int, start + i + 1);
        let ghost whole = bytes@.subrange(start as int, start + width);
        let d = match digit_of(bytes[start + i]) {
            Some(d) => d,
            None => {
                assert(whole[i as int] == bytes@[start + i]);
                return None;
            },
        };
        proof {
            assert(more.drop_last() =~= done);
            assert(more.last() == bytes@[start + i]);
            assert forall|k: int| 0 <= k < more.len() implies is_hex_digit(#[trigger] more[k]) by {
                if k < i {
                    assert(more[k] == done[k]);
                }
            }
            lemma_hex_value_bound(done);
            lemma_pow16_monotonic((i + 1) as nat, 32);
            lemma_pow16_values();
        }
        acc = acc * 16 + d as u128;
        i += 1;
    }
    proof {
        lemma_hex_value_bound(bytes@.subrange(start as int, start + width));
    }
    Some(acc)
}

/// The one-character text of a lower-case hex digit.
fn digit_str(b: u8) -> (s: &'static str)
    requires
        (0x30 <= b <= 0x39) || (0x61 <= b <= 0x66),
    ensures
        s@ == seq![b as char],
{
    proof {
        reveal_strlit("0");
        reveal_strlit("1");
        reveal_strlit("2");
        reveal_strlit("3");
        reveal_strlit("4");
        reveal_strlit("5");
        reveal_strlit("6");
        reveal_strlit("7");
        reveal_strlit("8");
        reveal_strlit("9");
        reveal_strlit("a");
        reveal_strlit("b");
        reveal_strlit("c");
        reveal_strlit("d");
        reveal_strlit("e");
        reveal_strlit("f");
    }
    let s = if b == 0x30 {
        "0"
    } else if b == 0x31 {
        "1"
    } else if b == 0x32 {
        "2"
    } else if b == 0x33 {
        "3"
    } else if b == 0x34 {
        "4"
    } else if b == 0x35 {
        "5"
    } else if b == 0x36 {
        "6"
    } else if b == 0x37 {
        "7"
    } else if b == 0x38 {
        "8"
    } else if b == 0x39 {
        "9"
    } else if b == 0x61 {
        "a"
    } else if b == 0x62 {
        "b"
    } else if b == 0x63 {
        "c"
    } else if b == 0x64 {
        "d"
    } else if b == 0x65 {
        "e"
    } else {
        "f"
    };
    assert(s@ =~= seq![b as char]);
    s
}

/// Appends `value` to `out` as `width` lower-case hex digits, see [`hex`].
pub fn push_hex(out: &mut String, value: u128, width: usize)
    ensures
        final(out)@ == old(out)@ + ascii(hex(value as nat, width as nat)),
{
    let ghost before = out@;
    let mut buf: Vec<u8> = Vec::new();
    let mut k: usize = 0;
    while k < width
        invariant
            k <= width,
            buf.len() == k,
        decreases width - k,
    {
        buf.push(0x30);
        k += 1;
    }
    let mut rest: u128 = value;
    let mut i: usize = width;
    while i > 0
        invariant
            i <= width,
            buf.len() == width,
            hex(value as nat, width as nat) == hex(rest as nat, i as nat) + buf@.subrange(
                i as int,
                width as int,
            ),
        decreases i,
    {
        let ghost prev = buf@;
        let ghost prev_rest = rest;
        i -= 1;
        let d: u8 = (rest % 16) as u8;
        let b: u8 = if d < 10 {
            0x30 + d
        } else {
            0x61 + d - 10
        };
        buf.set(i, b);
        rest = rest / 16;
        proof {
            assert(b == hex_digit((prev_rest % 16) as nat));
            assert(hex(prev_rest as nat, (i + 1) as nat) == hex(rest as nat, i as nat).push(b));
            assert(buf@.subrange(i as int, width as int) =~= seq![b] + prev.subrange(
                i + 1,
                width as int,
            ));
            assert(hex(rest as nat, i as nat).push(b) + prev.subrange(i + 1, width as int)
                =~= hex(rest as nat, i as nat) + (seq![b] + prev.subrange(i + 1, width as int)));
        }
    }
    proof {
        assert(hex(rest as nat, 0) =~= Seq::<u8>::empty());
        assert(buf@ =~= hex(value as nat, width as nat));
        lemma_hex_len(value as nat, width as nat);
    }
    let mut j: usize = 0;
    while j < width
        invariant
            j <= width,
            buf.len() == width,
            buf@ == hex(value as nat, width as nat),
            forall|i: int|
                0 <= i < width ==> {
                    let b = #[trigger] hex(value as nat, width as nat)[i];
                    (0x30 <= b <= 0x39) || (0x61 <= b <= 0x66)
                },
            out@ == before + ascii(buf@.subrange(0, j as int)),
        decreases width - j,
    {
        let ghost so_far = out@;
        let b = buf[j];
        assert(b == hex(value as nat, width as nat)[j as int]);
        out.append(digit_str(b));
        proof {
            assert(ascii(buf@.subrange(0, j + 1)) =~= ascii(buf@.subrange(0, j as int)) + seq![
                b as char,
            ]);
            assert(out@ =~= before + ascii(buf@.subrange(0, j + 1)));
        }
        j += 1;
    }
    proof {
        assert(buf@.subrange(0, width as int) =~= buf@);
    }
}

} // verus!
