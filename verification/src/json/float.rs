//! Floating-point cells. A value is held as the bit pattern of its IEEE 754
//! binary format: a sign bit, an exponent field and a mantissa field.

use vstd::prelude::*;
use vstd::arithmetic::power2::{
    lemma2_to64,
    lemma2_to64_rest,
    lemma_pow2_adds,
    lemma_pow2_unfold,
    pow2,
};
use crate::json::value::{f64_bits_finite, CanonicalValue, Number, NumberView, ValueView};

verus! {

/// Whether a binary32 bit pattern is neither an infinity nor a NaN.
pub open spec fn f32_bits_finite(bits: u32) -> bool {
    (bits as int / 0x80_0000) % 0x100 != 0xff
}

/// Whether a binary16 bit pattern is neither an infinity nor a NaN.
pub open spec fn f16_bits_finite(bits: u16) -> bool {
    (bits as int / 0x400) % 0x20 != 0x1f
}

/// How often a mantissa below `top` is doubled until it reaches `top`.
pub open spec fn doublings(mantissa: int, top: int) -> nat
    decreases
            (if mantissa < top {
                top - mantissa
            } else {
                0
            }),
{
    if 0 < mantissa < top {
        1 + doublings(2 * mantissa, top)
    } else {
        0
    }
}

/// A mantissa below `top`, doubled until it reaches `top`.
pub open spec fn normalized(mantissa: int, top: int) -> int
    decreases
            (if mantissa < top {
                top - mantissa
            } else {
                0
            }),
{
    if 0 < mantissa < top {
        normalized(2 * mantissa, top)
    } else {
        mantissa
    }
}

/// The binary64 bit pattern of the value that a narrower format holds as
/// the given sign, exponent field and mantissa field. `top` is two to the
/// width of the narrower mantissa, `scale` what a mantissa is multiplied by
/// to fill 52 bits, and `rebias` the difference of the exponent biases.
///
/// A normal value keeps its mantissa and has its exponent rebiased. A
/// subnormal value is normal in binary64: its mantissa is doubled until the
/// leading one leaves the field, and the exponent counts the doublings.
pub open spec fn widened(
    negative: bool,
    exponent: int,
    mantissa: int,
    top: int,
    scale: int,
    rebias: int,
) -> int {
    let sign: int = if negative {
        0x8000_0000_0000_0000
    } else {
        0
    };
    if exponent != 0 {
        sign + (exponent + rebias) * 0x10_0000_0000_0000 + mantissa * scale
    } else if mantissa == 0 {
        sign
    } else {
        sign + (rebias + 1 - doublings(mantissa, top)) * 0x10_0000_0000_0000 + (normalized(
            mantissa,
            top,
        ) - top) * scale
    }
}

/// The binary64 bit pattern of the value of a finite binary32 bit pattern.
pub open spec fn f32_to_f64(bits: u32) -> int {
    widened(
        bits >= 0x8000_0000,
        (bits as int / 0x80_0000) % 0x100,
        bits as int % 0x80_0000,
        0x80_0000,
        0x2000_0000,
        896,
    )
}

/// The binary64 bit pattern of the value of a finite binary16 bit pattern.
pub open spec fn f16_to_f64(bits: u16) -> int {
    widened(
        bits >= 0x8000,
        (bits as int / 0x400) % 0x20,
        bits as int % 0x400,
        0x400,
        0x400_0000_0000,
        1008,
    )
}

/// The two narrower formats: the width of the mantissa with `top`, `scale`
/// and `rebias` as `widened` takes them.
pub open spec fn narrow_format(width: nat, top: int, scale: int, rebias: int) -> bool {
    ||| width == 23 && top == 0x80_0000 && scale == 0x2000_0000 && rebias == 896
    ||| width == 10 && top == 0x400 && scale == 0x400_0000_0000 && rebias == 1008
}

/// Doubling a mantissa `count` times, where that reaches `top`, is at least
/// as often as `doublings` says.
proof fn lemma_doublings_bound(mantissa: int, top: int, count: nat, reached: int)
    requires
        0 < mantissa,
        reached >= top,
        reached == mantissa * pow2(count),
    ensures
        doublings(mantissa, top) <= count,
        top <= normalized(mantissa, top) < 2 * top || mantissa >= top,
    decreases count,
{
    lemma2_to64();
    if mantissa < top {
        if count == 0 {
            assert(mantissa * 1 == mantissa);
        } else {
            let rest = pow2((count - 1) as nat);
            lemma_pow2_unfold(count);
            assert(mantissa * (2 * rest) == (2 * mantissa) * rest) by (nonlinear_arith);
            lemma_doublings_bound(2 * mantissa, top, (count - 1) as nat, reached);
            assert(doublings(mantissa, top) == 1 + doublings(2 * mantissa, top));
            assert(normalized(mantissa, top) == normalized(2 * mantissa, top));
            if 2 * mantissa >= top {
                assert(normalized(2 * mantissa, top) == 2 * mantissa);
            }
        }
    }
}

/// Widens the fields of a finite value of a narrower format to binary64.
fn widen(negative: bool, exponent: u64, mantissa: u64, top: u64, scale: u64, rebias: u64) -> (bits:
    u64)
    requires
        exists|width: nat| narrow_format(width, top as int, scale as int, rebias as int),
        mantissa < top,
        exponent + rebias < 0x7ff,
    ensures
        bits == widened(
            negative,
            exponent as int,
            mantissa as int,
            top as int,
            scale as int,
            rebias as int,
        ),
        f64_bits_finite(bits),
{
    let sign: u64 = if negative {
        0x8000_0000_0000_0000
    } else {
        0
    };
    let ghost width = choose|width: nat|
        narrow_format(width, top as int, scale as int, rebias as int);
    assert(narrow_format(width, top as int, scale as int, rebias as int));
    assert(top * scale == 0x10_0000_0000_0000) by (nonlinear_arith)
        requires
            (top == 0x80_0000 && scale == 0x2000_0000) || (top == 0x400 && scale
                == 0x400_0000_0000),
    ;
    if exponent != 0 {
        assert(mantissa * scale < 0x10_0000_0000_0000) by (nonlinear_arith)
            requires
                mantissa < top,
                top * scale == 0x10_0000_0000_0000,
                scale > 0,
        ;
        let bits = sign + (exponent + rebias) * 0x10_0000_0000_0000 + mantissa * scale;
        proof {
            lemma_fields(bits as int, negative, (exponent + rebias) as int, (mantissa * scale) as int);
        }
        bits
    } else if mantissa == 0 {
        proof {
            lemma_fields(sign as int, negative, 0, 0);
        }
        sign
    } else {
        proof {
            lemma2_to64();
            assert(top == pow2(width));
            assert(mantissa * top >= top) by (nonlinear_arith)
                requires
                    mantissa >= 1,
                    top >= 0,
            ;
            lemma_doublings_bound(mantissa as int, top as int, width, mantissa * top);
        }
        let mut shifted: u64 = mantissa;
        let mut count: u64 = 0;
        while shifted < top
            invariant
                0 < shifted < 2 * top,
                top <= 0x80_0000,
                doublings(mantissa as int, top as int) == count + doublings(
                    shifted as int,
                    top as int,
                ),
                normalized(mantissa as int, top as int) == normalized(shifted as int, top as int),
                doublings(mantissa as int, top as int) <= 23,
            decreases 2 * top - shifted,
        {
            shifted = shifted * 2;
            count = count + 1;
        }
        assert((shifted - top) * scale < 0x10_0000_0000_0000) by (nonlinear_arith)
            requires
                shifted < 2 * top,
                shifted >= top,
                top * scale == 0x10_0000_0000_0000,
                scale > 0,
        ;
        let bits = sign + (rebias + 1 - count) * 0x10_0000_0000_0000 + (shifted - top) * scale;
        proof {
            lemma_fields(
                bits as int,
                negative,
                (rebias + 1 - count) as int,
                ((shifted - top) * scale) as int,
            );
        }
        bits
    }
}

/// The fields of a binary64 bit pattern that is put together from a sign,
/// an exponent field and a mantissa field are those fields.
proof fn lemma_fields(bits: int, negative: bool, exponent: int, mantissa: int)
    requires
        0 <= exponent < 0x800,
        0 <= mantissa < 0x10_0000_0000_0000,
        bits == (if negative {
            0x8000_0000_0000_0000int
        } else {
            0
        }) + exponent * 0x10_0000_0000_0000 + mantissa,
    ensures
        0 <= bits < 0x1_0000_0000_0000_0000,
        (bits / 0x10_0000_0000_0000) % 0x800 == exponent,
        bits % 0x10_0000_0000_0000 == mantissa,
        (bits >= 0x8000_0000_0000_0000) == negative,
{
    let sign: int = if negative {
        1
    } else {
        0
    };
    let upper = sign * 0x800 + exponent;
    assert(bits == upper * 0x10_0000_0000_0000 + mantissa);
    vstd::arithmetic::div_mod::lemma_fundamental_div_mod_converse(
        bits,
        0x10_0000_0000_0000,
        upper,
        mantissa,
    );
    vstd::arithmetic::div_mod::lemma_fundamental_div_mod_converse(upper, 0x800, sign, exponent);
}

/// The binary64 bit pattern of a finite binary32 value.
pub fn widen_f32(bits: u32) -> (wide: u64)
    requires
        f32_bits_finite(bits),
    ensures
        wide == f32_to_f64(bits),
        f64_bits_finite(wide),
{
    let exponent: u32 = (bits / 0x80_0000) % 0x100;
    let mantissa: u32 = bits % 0x80_0000;
    assert(narrow_format(23, 0x80_0000, 0x2000_0000, 896));
    widen(bits >= 0x8000_0000, exponent as u64, mantissa as u64, 0x80_0000, 0x2000_0000, 896)
}

/// The binary64 bit pattern of a finite binary16 value.
pub fn widen_f16(bits: u16) -> (wide: u64)
    requires
        f16_bits_finite(bits),
    ensures
        wide == f16_to_f64(bits),
        f64_bits_finite(wide),
{
    let exponent: u16 = (bits / 0x400) % 0x20;
    let mantissa: u16 = bits % 0x400;
    assert(narrow_format(10, 0x400, 0x400_0000_0000, 1008));
    widen(bits >= 0x8000, exponent as u64, mantissa as u64, 0x400, 0x400_0000_0000, 1008)
}

/// A finite binary floating-point value: `significand` times two to the
/// power `exponent`, negated where `negative`. Zero has a sign too.
pub struct Dyadic {
    pub negative: bool,
    pub significand: int,
    pub exponent: int,
}

/// The value that a binary format holds as the given sign, exponent field
/// and mantissa field. `top` is two to the width of the mantissa and
/// `least` the exponent of the lowest mantissa bit of the smallest values.
/// An exponent field of zero marks those: they have no hidden leading one.
pub open spec fn decoded(negative: bool, exponent: int, mantissa: int, top: int, least: int) -> Dyadic {
    if exponent == 0 {
        Dyadic { negative, significand: mantissa, exponent: least }
    } else {
        Dyadic { negative, significand: mantissa + top, exponent: least + exponent - 1 }
    }
}

/// The value of a finite binary16 bit pattern.
pub open spec fn f16_decoded(bits: u16) -> Dyadic {
    decoded(bits >= 0x8000, (bits as int / 0x400) % 0x20, bits as int % 0x400, 0x400, -24)
}

/// The value of a finite binary32 bit pattern.
pub open spec fn f32_decoded(bits: u32) -> Dyadic {
    decoded(
        bits >= 0x8000_0000,
        (bits as int / 0x80_0000) % 0x100,
        bits as int % 0x80_0000,
        0x80_0000,
        -149,
    )
}

/// The value of a finite binary64 bit pattern.
pub open spec fn f64_decoded(bits: int) -> Dyadic {
    decoded(
        bits >= 0x8000_0000_0000_0000,
        (bits / 0x10_0000_0000_0000) % 0x800,
        bits % 0x10_0000_0000_0000,
        0x10_0000_0000_0000,
        -1074,
    )
}

/// Two values are the same number with the same sign, the first written
/// with the smaller exponent.
pub open spec fn same_value(wide: Dyadic, narrow: Dyadic) -> bool {
    &&& wide.negative == narrow.negative
    &&& wide.exponent <= narrow.exponent
    &&& wide.significand == narrow.significand * pow2((narrow.exponent - wide.exponent) as nat)
}

/// A mantissa that is doubled until it reaches `top` is the mantissa times
/// two to the number of doublings.
proof fn lemma_normalized(mantissa: int, top: int)
    requires
        0 < mantissa,
    ensures
        normalized(mantissa, top) == mantissa * pow2(doublings(mantissa, top)),
    decreases
            (if mantissa < top {
                top - mantissa
            } else {
                0
            }),
{
    lemma2_to64();
    if mantissa < top {
        let rest = doublings(2 * mantissa, top);
        lemma_normalized(2 * mantissa, top);
        lemma_pow2_unfold(rest + 1);
        assert((2 * mantissa) * pow2(rest) == mantissa * (2 * pow2(rest))) by (nonlinear_arith);
    } else {
        assert(mantissa * 1 == mantissa);
    }
}

/// Widening keeps the value: the binary64 bit pattern is finite and holds
/// the number, with its sign, that the fields of the narrower format hold.
proof fn lemma_widened_value(
    negative: bool,
    exponent: int,
    mantissa: int,
    width: nat,
    top: int,
    scale: int,
    rebias: int,
    least: int,
)
    requires
        narrow_format(width, top, scale, rebias),
        least == 1 - (1023 - rebias) - width,
        0 <= mantissa < top,
        0 <= exponent,
        exponent + rebias < 0x7ff,
    ensures
        0 <= widened(negative, exponent, mantissa, top, scale, rebias) < 0x1_0000_0000_0000_0000,
        (widened(negative, exponent, mantissa, top, scale, rebias) / 0x10_0000_0000_0000) % 0x800
            != 0x7ff,
        same_value(
            f64_decoded(widened(negative, exponent, mantissa, top, scale, rebias)),
            decoded(negative, exponent, mantissa, top, least),
        ),
{
    lemma2_to64();
    lemma2_to64_rest();
    let bits = widened(negative, exponent, mantissa, top, scale, rebias);
    let narrow = decoded(negative, exponent, mantissa, top, least);
    let spread = (52 - width) as nat;
    assert(pow2(spread) == scale);
    assert(top * scale == 0x10_0000_0000_0000) by (nonlinear_arith)
        requires
            (top == 0x80_0000 && scale == 0x2000_0000) || (top == 0x400 && scale
                == 0x400_0000_0000),
    ;
    if exponent != 0 {
        assert(0 <= mantissa * scale < 0x10_0000_0000_0000) by (nonlinear_arith)
            requires
                0 <= mantissa < top,
                top * scale == 0x10_0000_0000_0000,
                scale > 0,
        ;
        lemma_fields(bits, negative, exponent + rebias, mantissa * scale);
        assert((mantissa + top) * scale == mantissa * scale + top * scale) by (nonlinear_arith);
        assert(narrow.exponent - f64_decoded(bits).exponent == spread);
    } else if mantissa == 0 {
        lemma_fields(bits, negative, 0, 0);
        assert(0 * pow2((narrow.exponent - f64_decoded(bits).exponent) as nat) == 0);
    } else {
        let count = doublings(mantissa, top);
        let lifted = normalized(mantissa, top);
        assert(top == pow2(width));
        assert(mantissa * top >= top) by (nonlinear_arith)
            requires
                mantissa >= 1,
                top >= 0,
        ;
        lemma_doublings_bound(mantissa, top, width, mantissa * top);
        lemma_normalized(mantissa, top);
        assert(0 <= (lifted - top) * scale < 0x10_0000_0000_0000) by (nonlinear_arith)
            requires
                top <= lifted < 2 * top,
                top * scale == 0x10_0000_0000_0000,
                scale > 0,
        ;
        lemma_fields(bits, negative, rebias + 1 - count, (lifted - top) * scale);
        assert(narrow.exponent - f64_decoded(bits).exponent == spread + count);
        lemma_pow2_adds(spread, count);
        assert((lifted - top) * scale + top * scale == lifted * scale) by (nonlinear_arith);
        assert((mantissa * pow2(count)) * scale == mantissa * (scale * pow2(count)))
            by (nonlinear_arith);
    }
}

/// Widening a finite binary32 value gives the finite binary64 value that is
/// the same number with the same sign.
pub proof fn lemma_f32_widening_keeps_value(bits: u32)
    requires
        f32_bits_finite(bits),
    ensures
        0 <= f32_to_f64(bits) < 0x1_0000_0000_0000_0000,
        f64_bits_finite(f32_to_f64(bits) as u64),
        same_value(f64_decoded(f32_to_f64(bits)), f32_decoded(bits)),
{
    lemma_widened_value(
        bits >= 0x8000_0000,
        (bits as int / 0x80_0000) % 0x100,
        bits as int % 0x80_0000,
        23,
        0x80_0000,
        0x2000_0000,
        896,
        -149,
    );
}

/// Widening a finite binary16 value gives the finite binary64 value that is
/// the same number with the same sign.
pub proof fn lemma_f16_widening_keeps_value(bits: u16)
    requires
        f16_bits_finite(bits),
    ensures
        0 <= f16_to_f64(bits) < 0x1_0000_0000_0000_0000,
        f64_bits_finite(f16_to_f64(bits) as u64),
        same_value(f64_decoded(f16_to_f64(bits)), f16_decoded(bits)),
{
    lemma_widened_value(
        bits >= 0x8000,
        (bits as int / 0x400) % 0x20,
        bits as int % 0x400,
        10,
        0x400,
        0x400_0000_0000,
        1008,
        -24,
    );
}

/// What a binary64 cell converts to: the number, or null for an infinity or
/// a NaN.
pub open spec fn f64_view(bits: u64) -> ValueView {
    if f64_bits_finite(bits) {
        ValueView::Number(NumberView::Float(bits as int))
    } else {
        ValueView::Null
    }
}

/// What a binary32 cell converts to: the same value as binary64, or null for
/// an infinity or a NaN.
pub open spec fn f32_view(bits: u32) -> ValueView {
    if f32_bits_finite(bits) {
        ValueView::Number(NumberView::Float(f32_to_f64(bits)))
    } else {
        ValueView::Null
    }
}

/// What a binary16 cell converts to: the same value as binary64, or null for
/// an infinity or a NaN.
pub open spec fn f16_view(bits: u16) -> ValueView {
    if f16_bits_finite(bits) {
        ValueView::Number(NumberView::Float(f16_to_f64(bits)))
    } else {
        ValueView::Null
    }
}

/// Converts a binary64 cell.
pub fn f64_value(bits: u64) -> (value: CanonicalValue)
    ensures
        value@ == f64_view(bits),
        value.wf(),
{
    match Number::from_f64_bits(bits) {
        Some(n) => CanonicalValue::Number(n),
        None => CanonicalValue::Null,
    }
}

/// Converts a binary32 cell.
pub fn f32_value(bits: u32) -> (value: CanonicalValue)
    ensures
        value@ == f32_view(bits),
        value.wf(),
{
    if (bits / 0x80_0000) % 0x100 != 0xff {
        f64_value(widen_f32(bits))
    } else {
        CanonicalValue::Null
    }
}

/// Converts a binary16 cell.
pub fn f16_value(bits: u16) -> (value: CanonicalValue)
    ensures
        value@ == f16_view(bits),
        value.wf(),
{
    if (bits / 0x400) % 0x20 != 0x1f {
        f64_value(widen_f16(bits))
    } else {
        CanonicalValue::Null
    }
}

} // verus!
