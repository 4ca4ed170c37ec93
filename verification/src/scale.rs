//! A monitor's scale factor as an exact ratio.
//!
//! Hosts report the scale factor as an IEEE 754 binary64 number. The crate
//! keeps it by its 64-bit encoding and reads from it the exact value
//! `mantissa * 2^exponent`, so that logical pixels are computed in exact
//! arithmetic. A usable scale factor is positive and normal, which is what
//! windowing toolkits accept as one.

use vstd::arithmetic::power2::{lemma_pow2_pos, lemma_pow2_unfold, pow2};
use vstd::prelude::*;

verus! {

/// Two to the power 52: the number of fraction patterns of a binary64, and
/// the encoding of the smallest positive normal number.
pub const FRACTION_SPAN: u64 = 0x0010_0000_0000_0000;

/// The encoding of positive infinity; every positive finite number is
/// encoded below it.
pub const INFINITY_BITS: u64 = 0x7FF0_0000_0000_0000;

/// The encoding of 1.0.
pub const ONE_BITS: u64 = 0x3FF0_0000_0000_0000;

/// What is subtracted from the exponent field to get the exponent of the
/// integer mantissa.
pub const EXPONENT_OFFSET: u64 = 1075;

/// An exact, positive ratio of two integers.
pub struct Ratio {
    pub num: int,
    pub den: int,
}

impl Ratio {
    /// The ratio `value / 1`.
    pub open spec fn whole(value: int) -> Ratio {
        Ratio { num: value, den: 1 }
    }

    /// Both ratios denote the same number.
    pub open spec fn same_value(self, other: Ratio) -> bool {
        self.num * other.den == other.num * self.den
    }
}

/// `bits` encodes a positive normal binary64: sign bit clear, exponent field
/// neither all zeros nor all ones.
pub open spec fn is_positive_normal(bits: u64) -> bool {
    FRACTION_SPAN <= bits < INFINITY_BITS
}

/// The integer mantissa of a positive normal encoding: the 52 fraction bits
/// under the implicit leading one.
pub open spec fn mantissa_of(bits: u64) -> int {
    FRACTION_SPAN + bits % FRACTION_SPAN
}

/// The power of two that the integer mantissa is multiplied by.
pub open spec fn exponent_of(bits: u64) -> int {
    bits / FRACTION_SPAN - EXPONENT_OFFSET
}

/// The exact value of a positive normal encoding.
pub open spec fn value_of(bits: u64) -> Ratio {
    if exponent_of(bits) >= 0 {
        Ratio { num: mantissa_of(bits) * pow2(exponent_of(bits) as nat), den: 1 }
    } else {
        Ratio { num: mantissa_of(bits), den: pow2((-exponent_of(bits)) as nat) as int }
    }
}

/// A monitor's scale factor: the ratio of physical to logical pixels.
#[derive(Clone, Copy, Debug, PartialEq, Eq)]
pub struct ScaleFactor {
    bits: u64,
}

impl View for ScaleFactor {
    type V = Ratio;

    /// The exact value of the scale factor.
    open spec fn view(&self) -> Ratio {
        value_of(self.bits())
    }
}

impl ScaleFactor {
    /// The binary64 encoding held.
    pub closed spec fn bits(self) -> u64 {
        self.bits
    }

    /// The encoding held is that of a positive normal number. Every value
    /// that `from_bits` or `one` hands out is valid.
    pub open spec fn valid(self) -> bool {
        is_positive_normal(self.bits())
    }

    #[verifier::type_invariant]
    spec fn positive_normal(self) -> bool {
        is_positive_normal(self.bits)
    }

    /// The scale factor with the binary64 encoding `bits`, if that is a
    /// positive normal number. Zero, subnormal and negative numbers,
    /// infinities and NaN are no scale factor.
    pub fn from_bits(bits: u64) -> (scale: Option<ScaleFactor>)
        ensures
            scale is Some <==> is_positive_normal(bits),
            scale matches Some(s) ==> s.bits() == bits && s.valid(),
    {
        if FRACTION_SPAN <= bits && bits < INFINITY_BITS {
            Some(ScaleFactor { bits })
        } else {
            None
        }
    }

    /// The scale factor 1.0, at which logical and physical pixels coincide.
    pub fn one() -> (scale: ScaleFactor)
        ensures
            scale.bits() == ONE_BITS,
            scale.valid(),
    {
        ScaleFactor { bits: ONE_BITS }
    }

    /// The binary64 encoding of the scale factor.
    pub fn to_bits(&self) -> (bits: u64)
        ensures
            bits == self.bits(),
            is_positive_normal(bits),
    {
        proof {
            use_type_invariant(self);
        }
        self.bits
    }

    /// The integer mantissa, between 2^52 and 2^53.
    pub fn mantissa(&self) -> (mantissa: u64)
        ensures
            mantissa == mantissa_of(self.bits()),
            FRACTION_SPAN <= mantissa < 2 * FRACTION_SPAN,
    {
        FRACTION_SPAN + self.bits % FRACTION_SPAN
    }

    /// The exponent field of the encoding, between 1 and 2046; the exponent
    /// of the integer mantissa is this less `EXPONENT_OFFSET`.
    pub fn biased_exponent(&self) -> (biased: u64)
        ensures
            biased - EXPONENT_OFFSET == exponent_of(self.bits()),
            1 <= biased <= 2046,
    {
        proof {
            use_type_invariant(self);
        }
        self.bits / FRACTION_SPAN
    }
}

/// The value of a valid scale factor is a ratio of positive integers, its
/// mantissa is in range, and the value 1.0 is the ratio of 2^52 to itself.
pub proof fn lemma_scale_value(scale: ScaleFactor)
    requires
        scale.valid(),
    ensures
        scale@.num > 0,
        scale@.den > 0,
        FRACTION_SPAN <= mantissa_of(scale.bits()) < 2 * FRACTION_SPAN,
        -1074 <= exponent_of(scale.bits()) <= 971,
        scale@.num >= mantissa_of(scale.bits()),
        scale.bits() == ONE_BITS ==> scale@.num == scale@.den,
{
    let bits = scale.bits();
    let m = mantissa_of(bits);
    let e = exponent_of(bits);
    if e >= 0 {
        lemma_pow2_pos(e as nat);
        assert(m * pow2(e as nat) >= m) by (nonlinear_arith)
            requires
                m > 0,
                pow2(e as nat) >= 1,
        ;
    } else {
        lemma_pow2_pos((-e) as nat);
    }
    if bits == ONE_BITS {
        assert(e == -52);
        assert(m == FRACTION_SPAN);
        vstd::arithmetic::power2::lemma2_to64_rest();
        assert(pow2(52) == FRACTION_SPAN);
    }
}

/// Two to the power `exponent`.
pub(crate) fn power_of_two(exponent: u64) -> (power: u128)
    requires
        exponent <= 126,
    ensures
        power == pow2(exponent as nat),
        power >= 1,
{
    let mut power: u128 = 1;
    let mut done: u64 = 0;
    proof {
        vstd::arithmetic::power2::lemma2_to64();
        lemma_pow2_bound(0, 126);
    }
    while done < exponent
        invariant
            done <= exponent <= 126,
            power == pow2(done as nat),
            power >= 1,
        decreases exponent - done,
    {
        proof {
            lemma_pow2_unfold((done + 1) as nat);
            lemma_pow2_bound((done + 1) as nat, 126);
        }
        power = power * 2;
        done = done + 1;
    }
    power
}

/// Powers of two grow with the exponent, and 2^126 fits 128 bits.
pub proof fn lemma_pow2_bound(small: nat, large: nat)
    requires
        small <= large,
    ensures
        1 <= pow2(small) <= pow2(large),
        large <= 126 ==> pow2(large) <= 0x4000_0000_0000_0000_0000_0000_0000_0000,
{
    lemma_pow2_pos(small);
    if small < large {
        vstd::arithmetic::power2::lemma_pow2_strictly_increases(small, large);
    }
    if large <= 126 {
        if large < 126 {
            vstd::arithmetic::power2::lemma_pow2_strictly_increases(large, 126);
        }
        lemma_pow2_126();
    }
}

proof fn lemma_pow2_126()
    ensures
        pow2(126) == 0x4000_0000_0000_0000_0000_0000_0000_0000,
{
    vstd::arithmetic::power2::lemma2_to64_rest();
    vstd::arithmetic::power2::lemma_pow2_adds(63, 63);
    assert(pow2(63) == 0x8000_0000_0000_0000);
    assert(0x8000_0000_0000_0000int * 0x8000_0000_0000_0000int
        == 0x4000_0000_0000_0000_0000_0000_0000_0000int) by (nonlinear_arith);
}

} // verus!
