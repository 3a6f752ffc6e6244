//! Fixed-width lowercase hexadecimal encoding and decoding of unsigned
//! values, as bytes, with the round-trip proof the carrier codec rests on.

use vstd::prelude::*;

verus! {

/// The lowercase hex digit (as an ASCII byte) for one value below sixteen.
pub open spec fn hex_digit(n: u8) -> u8 {
    if n < 10 {
        (0x30 + n) as u8
    } else {
        (0x57 + n) as u8
    }
}

/// The fixed-width big-endian hex encoding of `v`: `width` digits, the last
/// one holding the lowest nibble.
pub open spec fn hex_bytes(v: u128, width: nat) -> Seq<u8>
    decreases width,
{
    if width == 0 {
        Seq::empty()
    } else {
        hex_bytes(v / 16, (width - 1) as nat).push(hex_digit((v % 16) as u8))
    }
}

/// Whether `b` is a lowercase ASCII hex digit.
pub open spec fn is_hex_digit(b: u8) -> bool {
    (0x30 <= b && b <= 0x39) || (0x61 <= b && b <= 0x66)
}

/// The value of one hex digit byte.
pub open spec fn hex_digit_value(b: u8) -> u8 {
    if b <= 0x39 {
        (b - 0x30) as u8
    } else {
        (b - 0x57) as u8
    }
}

/// Whether every byte of `s` is a lowercase hex digit.
pub open spec fn all_hex(s: Seq<u8>) -> bool {
    forall|i: int| 0 <= i < s.len() ==> is_hex_digit(#[trigger] s[i])
}

/// The value of a big-endian hex digit string.
pub open spec fn hex_value(s: Seq<u8>) -> nat
    decreases s.len(),
{
    if s.len() == 0 {
        0
    } else {
        (hex_value(s.drop_last()) * 16 + hex_digit_value(s.last())) as nat
    }
}

/// Sixteen to the power `w`: the number of values a `w`-digit string covers.
pub open spec fn pow16(w: nat) -> nat
    decreases w,
{
    if w == 0 {
        1nat
    } else {
        16 * pow16((w - 1) as nat)
    }
}

pub proof fn lemma_pow16_values()
    ensures
        pow16(2) == 0x100,
        pow16(16) == 0x10000000000000000,
        pow16(32) == 0x100000000000000000000000000000000,
{
    reveal_with_fuel(pow16, 33);
}

/// An encoding has exactly `width` digits, all of them hex.
pub proof fn lemma_hex_bytes_wf(v: u128, width: nat)
    ensures
        hex_bytes(v, width).len() == width,
        all_hex(hex_bytes(v, width)),
    decreases width,
{
    if width > 0 {
        lemma_hex_bytes_wf(v / 16, (width - 1) as nat);
        assert(hex_digit((v % 16) as u8) == hex_bytes(v, width).last());
    }
}

/// A `w`-digit string's value is below sixteen to the `w`.
pub proof fn lemma_hex_value_bound(s: Seq<u8>)
    requires
        all_hex(s),
    ensures
        hex_value(s) < pow16(s.len()),
    decreases s.len(),
{
    if s.len() > 0 {
        assert(all_hex(s.drop_last())) by {
            assert(forall|i: int|
                0 <= i < s.len() - 1 ==> #[trigger] s.drop_last()[i] == s[i]);
        };
        lemma_hex_value_bound(s.drop_last());
        assert(is_hex_digit(s.last()));
        assert(hex_digit_value(s.last()) <= 15);
    }
}

/// Decoding inverts encoding: the value written into `width` digits is read
/// back unchanged whenever it fits.
pub proof fn lemma_hex_round_trip(v: u128, width: nat)
    requires
        v < pow16(width),
    ensures
        hex_value(hex_bytes(v, width)) == v,
    decreases width,
{
    if width == 0 {
        assert(pow16(0) == 1);
    } else {
        let s = hex_bytes(v, width);
        let low = (v % 16) as u8;
        assert(s.drop_last() =~= hex_bytes(v / 16, (width - 1) as nat));
        assert(hex_digit_value(hex_digit(low)) == low);
        assert(v / 16 < pow16((width - 1) as nat)) by {
            assert(pow16(width) == 16 * pow16((width - 1) as nat));
        };
        lemma_hex_round_trip(v / 16, (width - 1) as nat);
        assert(hex_value(s) == (v / 16) * 16 + (v % 16));
        assert((v / 16) * 16 + (v % 16) == v) by (nonlinear_arith);
    }
}

/// The hex digit byte for one value below sixteen.
pub fn hex_digit_exec(n: u8) -> (r: u8)
    requires
        n < 16,
    ensures
        r == hex_digit(n),
{
    if n < 10 {
        0x30 + n
    } else {
        0x57 + n
    }
}

/// Appends the fixed-width big-endian hex encoding of `v` to `out`.
pub fn push_hex(out: &mut Vec<u8>, v: u128, width: usize)
    ensures
        final(out)@ == old(out)@ + hex_bytes(v, width as nat),
    decreases width,
{
    if width == 0 {
        assert(out@ =~= out@ + hex_bytes(v, 0));
    } else {
        let ghost prefix = out@;
        push_hex(out, v / 16, width - 1);
        out.push(hex_digit_exec((v % 16) as u8));
        assert(out@ =~= prefix + hex_bytes(v, width as nat));
    }
}

/// Reads the big-endian hex value of `bytes[start..end]`; `None` when some
/// byte in the range is not a lowercase hex digit.
pub fn parse_hex(bytes: &[u8], start: usize, end: usize) -> (r: Option<u128>)
    requires
        start <= end <= bytes@.len(),
        end - start <= 32,
    ensures
        r is Some <==> all_hex(bytes@.subrange(start as int, end as int)),
        r is Some ==> r->0 == hex_value(bytes@.subrange(start as int, end as int)),
{
    let ghost whole = bytes@.subrange(start as int, end as int);
    let mut acc: u128 = 0;
    let mut i: usize = start;
    proof {
        assert(whole.subrange(0, 0) =~= Seq::<u8>::empty());
    }
    while i < end
        invariant
            start <= i <= end <= bytes@.len(),
            end - start <= 32,
            whole == bytes@.subrange(start as int, end as int),
            all_hex(whole.subrange(0, i - start)),
            acc == hex_value(whole.subrange(0, i - start)),
        decreases end - i,
    {
        let b = bytes[i];
        if !(0x30 <= b && b <= 0x39 || 0x61 <= b && b <= 0x66) {
            proof {
                assert(!is_hex_digit(whole[i - start]));
            }
            return None;
        }
        let d: u8 = if b <= 0x39 {
            b - 0x30
        } else {
            b - 0x57
        };
        let ghost pre = whole.subrange(0, i - start);
        proof {
            lemma_hex_value_bound(pre);
            lemma_pow16_values();
            lemma_pow16_le((i - start) as nat, 31);
            assert(whole.subrange(0, i + 1 - start).drop_last() =~= pre);
            assert(whole.subrange(0, i + 1 - start).last() == bytes@[i as int]);
        }
        acc = acc * 16 + (d as u128);
        i = i + 1;
    }
    proof {
        assert(whole.subrange(0, end - start) =~= whole);
    }
    Some(acc)
}

/// Sixteen-to-the is non-decreasing in the exponent.
pub proof fn lemma_pow16_le(a: nat, b: nat)
    requires
        a <= b,
    ensures
        pow16(a) <= pow16(b),
    decreases b,
{
    if a < b {
        lemma_pow16_le(a, (b - 1) as nat);
        assert(pow16(b) == 16 * pow16((b - 1) as nat));
    }
}

} // verus!
