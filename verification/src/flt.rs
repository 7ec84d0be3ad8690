//! Single precision numbers carried as IEEE-754 bit patterns.
//!
//! Sign, order and NaN are read off the bits by verified code. Rounded
//! arithmetic is done by `micromath`; each operation's result has a name, and
//! every NaN that comes back is replaced by one fixed quiet NaN, so that a
//! result is the same word on every machine.
use micromath::F32;
use vstd::prelude::*;

verus! {

/// The sign bit of a pattern.
pub const SIGN_BIT: u32 = 0x8000_0000;

/// Everything but the sign bit.
pub const MAGNITUDE_MASK: u32 = 0x7fff_ffff;

/// The magnitude of positive infinity; a larger magnitude is a NaN.
pub const INFINITY_BITS: u32 = 0x7f80_0000;

/// The quiet NaN that stands for every NaN result.
pub const QUIET_NAN_BITS: u32 = 0x7fc0_0000;

/// The pattern of 1.
pub const ONE: u32 = 0x3f80_0000;

/// The pattern of 1.5.
pub const ONE_AND_HALF: u32 = 0x3fc0_0000;

/// The pattern of 2.
pub const TWO: u32 = 0x4000_0000;

/// The pattern of 3.
pub const THREE: u32 = 0x4040_0000;

/// The pattern of 4.
pub const FOUR: u32 = 0x4080_0000;

/// The pattern of 5.
pub const FIVE: u32 = 0x40a0_0000;

/// The pattern of 8.
pub const EIGHT: u32 = 0x4100_0000;

/// The pattern of 255.
pub const BYTE_MAX: u32 = 0x437f_0000;

/// The pattern of 65536.
pub const HALF_WORD: u32 = 0x4780_0000;

/// The pattern of the number nearest to one third.
pub const THIRD: u32 = 0x3eaa_aaab;

/// The pattern of the number nearest to a quarter turn in radians.
pub const QUARTER_TURN: u32 = 0x3fc9_0fdb;

/// The pattern of the number nearest to a full turn in radians.
pub const FULL_TURN: u32 = 0x40c9_0fdb;

/// The pattern of one less the gap between 1 and the next number above it.
pub const ALMOST_ONE: u32 = 0x3f7f_fffe;

/// A single precision number, held as its IEEE-754 bit pattern.
#[derive(Clone, Copy, Debug, Default, PartialEq, Eq, Structural)]
pub struct Flt {
    pub bits: u32,
}

/// Whether the pattern is a NaN.
pub open spec fn is_nan_bits(b: u32) -> bool {
    (b & MAGNITUDE_MASK) > INFINITY_BITS
}

/// The pattern, with every NaN mapped to the one quiet NaN.
pub open spec fn quieted(b: u32) -> u32 {
    if is_nan_bits(b) {
        QUIET_NAN_BITS
    } else {
        b
    }
}

/// `r` is what an operation named `named` may hand back: the named word
/// itself, or some NaN where the named word is a NaN.
pub open spec fn agrees(r: u32, named: u32) -> bool {
    &&& is_nan_bits(r) == is_nan_bits(named)
    &&& !is_nan_bits(r) ==> r == named
}

/// The rounded sum of two patterns.
pub uninterp spec fn sum_bits(a: u32, b: u32) -> u32;

/// The rounded difference of two patterns.
pub uninterp spec fn difference_bits(a: u32, b: u32) -> u32;

/// The rounded product of two patterns.
pub uninterp spec fn product_bits(a: u32, b: u32) -> u32;

/// The rounded quotient of two patterns.
pub uninterp spec fn quotient_bits(a: u32, b: u32) -> u32;

/// The remainder of dividing the first pattern by the second.
pub uninterp spec fn remainder_bits(a: u32, b: u32) -> u32;

/// The floor that `micromath` computes.
pub uninterp spec fn floor_bits(a: u32) -> u32;

/// The sine that `micromath` approximates.
pub uninterp spec fn sine_bits(a: u32) -> u32;

/// The cosine that `micromath` approximates.
pub uninterp spec fn cosine_bits(a: u32) -> u32;

/// The integer power that `micromath` computes.
pub uninterp spec fn power_bits(a: u32, n: u16) -> u32;

/// The pattern of a small unsigned integer.
pub uninterp spec fn small_int_bits(n: u16) -> u32;

/// `micromath`'s `Add` for `F32`, the `+` of the body, which adds the two
/// wrapped numbers. The sum is a NaN exactly when the named sum is, and is
/// the named sum otherwise.
#[verifier::external_body]
fn raw_sum(a: u32, b: u32) -> (r: u32)
    ensures
        agrees(r, sum_bits(a, b)),
{
    (F32::from_bits(a) + F32::from_bits(b)).to_bits()
}

/// `micromath`'s `Sub` for `F32`, the `-` of the body, which subtracts the
/// wrapped numbers. The result is a NaN exactly when the named difference
/// is, and equals it otherwise.
#[verifier::external_body]
fn raw_difference(a: u32, b: u32) -> (r: u32)
    ensures
        agrees(r, difference_bits(a, b)),
{
    (F32::from_bits(a) - F32::from_bits(b)).to_bits()
}

/// `micromath`'s `Mul` for `F32`, the `*` of the body, which multiplies the
/// wrapped numbers. The result is a NaN exactly when the named product is,
/// and equals it otherwise.
#[verifier::external_body]
fn raw_product(a: u32, b: u32) -> (r: u32)
    ensures
        agrees(r, product_bits(a, b)),
{
    (F32::from_bits(a) * F32::from_bits(b)).to_bits()
}

/// `micromath`'s `Div` for `F32`, the `/` of the body, which divides the
/// wrapped numbers; a zero divisor gives an infinity or a NaN, never a panic. The result is a NaN
/// exactly when the named quotient is, and equals it otherwise.
#[verifier::external_body]
fn raw_quotient(a: u32, b: u32) -> (r: u32)
    ensures
        agrees(r, quotient_bits(a, b)),
{
    (F32::from_bits(a) / F32::from_bits(b)).to_bits()
}

/// `micromath`'s `Rem` for `F32`, the `%` of the body: the remainder of the
/// wrapped numbers, with the sign of the dividend. The result is a NaN exactly when the named
/// remainder is, and equals it otherwise.
#[verifier::external_body]
fn raw_remainder(a: u32, b: u32) -> (r: u32)
    ensures
        agrees(r, remainder_bits(a, b)),
{
    (F32::from_bits(a) % F32::from_bits(b)).to_bits()
}

/// `micromath`'s `F32::floor`: the number cut to an integer and lowered by
/// one where the cut went up. The result is a NaN exactly when the named
/// floor is, and equals it otherwise.
#[verifier::external_body]
fn raw_floor(a: u32) -> (r: u32)
    ensures
        agrees(r, floor_bits(a)),
{
    F32::from_bits(a).floor().to_bits()
}

/// `micromath`'s `F32::sin`, a parabolic approximation built from rounded
/// arithmetic alone. The result is a NaN exactly when the named sine is, and
/// equals it otherwise.
#[verifier::external_body]
fn raw_sine(a: u32) -> (r: u32)
    ensures
        agrees(r, sine_bits(a)),
{
    F32::from_bits(a).sin().to_bits()
}

/// `micromath`'s `F32::cos`, a parabolic approximation built from rounded
/// arithmetic alone. The result is a NaN exactly when the named cosine is,
/// and equals it otherwise.
#[verifier::external_body]
fn raw_cosine(a: u32) -> (r: u32)
    ensures
        agrees(r, cosine_bits(a)),
{
    F32::from_bits(a).cos().to_bits()
}

/// `micromath`'s `F32::powi` with a non-negative exponent: repeated squaring.
/// The result is a NaN exactly when the named power is, and equals it
/// otherwise.
#[verifier::external_body]
fn raw_power(a: u32, n: u16) -> (r: u32)
    ensures
        agrees(r, power_bits(a, n)),
{
    F32::from_bits(a).powi(n.into()).to_bits()
}

/// `micromath`'s `From<u16>` for `F32`: the integer as a number, which is
/// exact. The result equals the named pattern, which is no NaN.
#[verifier::external_body]
fn raw_small_int(n: u16) -> (r: u32)
    ensures
        r == small_int_bits(n),
        !is_nan_bits(r),
{
    F32::from(n).to_bits()
}

/// Maps every NaN to the one quiet NaN.
fn quiet(r: u32) -> (q: u32)
    ensures
        q == quieted(r),
{
    if (r & MAGNITUDE_MASK) > INFINITY_BITS {
        QUIET_NAN_BITS
    } else {
        r
    }
}

proof fn quieted_of_agreeing(r: u32, named: u32)
    requires
        agrees(r, named),
    ensures
        quieted(r) == quieted(named),
{
}

impl Flt {
    /// The number with the given bit pattern.
    pub fn from_bits(bits: u32) -> (r: Flt)
        ensures
            r.bits == bits,
    {
        Flt { bits }
    }

    /// The bit pattern of the number.
    pub fn to_bits(self) -> (bits: u32)
        ensures
            bits == self.bits,
    {
        self.bits
    }

    /// Positive zero.
    pub open spec fn zero() -> Flt {
        Flt { bits: 0 }
    }

    /// The number one.
    pub open spec fn one() -> Flt {
        Flt { bits: ONE }
    }

    /// Whether the number is a NaN.
    pub open spec fn is_nan(self) -> bool {
        is_nan_bits(self.bits)
    }

    /// Whether the sign bit is set.
    pub open spec fn is_negative(self) -> bool {
        self.bits & SIGN_BIT != 0
    }

    /// The magnitude as an integer: the pattern without its sign. Among
    /// numbers that are no NaN, a larger magnitude is a larger absolute value.
    pub open spec fn magnitude(self) -> int {
        (self.bits & MAGNITUDE_MASK) as int
    }

    /// The place of the number in the order of all numbers that are no NaN:
    /// the magnitude, negated under a set sign bit. Both zeros have place 0.
    pub open spec fn rank(self) -> int {
        if self.is_negative() {
            -self.magnitude()
        } else {
            self.magnitude()
        }
    }

    /// `self < other` as IEEE-754 orders numbers: false when either is a NaN.
    pub open spec fn lt_spec(self, other: Flt) -> bool {
        !self.is_nan() && !other.is_nan() && self.rank() < other.rank()
    }

    /// `self <= other` as IEEE-754 orders numbers: false when either is a NaN.
    pub open spec fn le_spec(self, other: Flt) -> bool {
        !self.is_nan() && !other.is_nan() && self.rank() <= other.rank()
    }

    /// Numeric equality: false when either is a NaN, true of the two zeros.
    pub open spec fn same_number(self, other: Flt) -> bool {
        !self.is_nan() && !other.is_nan() && self.rank() == other.rank()
    }

    /// The sum, with NaN quieted.
    pub open spec fn plus_spec(self, other: Flt) -> Flt {
        Flt { bits: quieted(sum_bits(self.bits, other.bits)) }
    }

    /// The difference, with NaN quieted.
    pub open spec fn minus_spec(self, other: Flt) -> Flt {
        Flt { bits: quieted(difference_bits(self.bits, other.bits)) }
    }

    /// The product, with NaN quieted.
    pub open spec fn times_spec(self, other: Flt) -> Flt {
        Flt { bits: quieted(product_bits(self.bits, other.bits)) }
    }

    /// The quotient, with NaN quieted.
    pub open spec fn over_spec(self, other: Flt) -> Flt {
        Flt { bits: quieted(quotient_bits(self.bits, other.bits)) }
    }

    /// The remainder, with NaN quieted.
    pub open spec fn modulo_spec(self, other: Flt) -> Flt {
        Flt { bits: quieted(remainder_bits(self.bits, other.bits)) }
    }

    /// The floor, with NaN quieted.
    pub open spec fn floor_spec(self) -> Flt {
        Flt { bits: quieted(floor_bits(self.bits)) }
    }

    /// The sine, with NaN quieted.
    pub open spec fn sin_spec(self) -> Flt {
        Flt { bits: quieted(sine_bits(self.bits)) }
    }

    /// The cosine, with NaN quieted.
    pub open spec fn cos_spec(self) -> Flt {
        Flt { bits: quieted(cosine_bits(self.bits)) }
    }

    /// The integer power, with NaN quieted.
    pub open spec fn powi_spec(self, n: u16) -> Flt {
        Flt { bits: quieted(power_bits(self.bits, n)) }
    }

    /// The absolute value: the pattern with the sign bit cleared.
    pub open spec fn abs_spec(self) -> Flt {
        Flt { bits: self.bits & MAGNITUDE_MASK }
    }

    /// The negation: the pattern with the sign bit flipped.
    pub open spec fn neg_spec(self) -> Flt {
        Flt { bits: self.bits ^ SIGN_BIT }
    }

    /// The lesser of two numbers; where one is a NaN, the other.
    pub open spec fn min_spec(a: Flt, b: Flt) -> Flt {
        if a.is_nan() {
            b
        } else if b.is_nan() {
            a
        } else if b.lt_spec(a) {
            b
        } else {
            a
        }
    }

    /// The reciprocal: one divided by the number.
    pub open spec fn recip_spec(self) -> Flt {
        Flt::one().over_spec(self)
    }

    /// The number of an unsigned integer: its upper half times 65536 plus its
    /// lower half, each half exact and the sum rounded once.
    pub open spec fn from_u32_spec(n: u32) -> Flt {
        let high = Flt { bits: small_int_bits((n / 65536) as u16) };
        let low = Flt { bits: small_int_bits((n % 65536) as u16) };
        high.times_spec(Flt { bits: HALF_WORD }).plus_spec(low)
    }

    /// The number cut towards zero and held to 0..=255: 0 for a NaN and for
    /// anything negative or below one, 255 for anything from 255 up.
    pub open spec fn to_u8_spec(self) -> u8 {
        let exponent = (self.bits >> 23) & 0xff;
        let mantissa = (self.bits & 0x007f_ffff) | 0x0080_0000;
        if self.is_nan() || self.is_negative() || exponent < 127 {
            0u8
        } else if exponent > 134 {
            255u8
        } else {
            (mantissa >> ((150 - exponent) as u32)) as u8
        }
    }

    /// Whether the number is a NaN.
    pub fn is_nan_exec(self) -> (r: bool)
        ensures
            r == self.is_nan(),
    {
        (self.bits & MAGNITUDE_MASK) > INFINITY_BITS
    }

    /// Whether `self < other`.
    pub fn lt(self, other: Flt) -> (r: bool)
        ensures
            r == self.lt_spec(other),
    {
        if self.is_nan_exec() || other.is_nan_exec() {
            return false;
        }
        let a: u32 = self.bits & MAGNITUDE_MASK;
        let b: u32 = other.bits & MAGNITUDE_MASK;
        let a_negative = self.bits & SIGN_BIT != 0;
        let b_negative = other.bits & SIGN_BIT != 0;
        if a_negative {
            if b_negative {
                b < a
            } else {
                a != 0 || b != 0
            }
        } else {
            !b_negative && a < b
        }
    }

    /// Whether `self <= other`.
    pub fn le(self, other: Flt) -> (r: bool)
        ensures
            r == self.le_spec(other),
    {
        if self.is_nan_exec() || other.is_nan_exec() {
            return false;
        }
        let a: u32 = self.bits & MAGNITUDE_MASK;
        let b: u32 = other.bits & MAGNITUDE_MASK;
        let a_negative = self.bits & SIGN_BIT != 0;
        let b_negative = other.bits & SIGN_BIT != 0;
        if a_negative {
            if b_negative {
                b <= a
            } else {
                true
            }
        } else {
            if b_negative {
                a == 0 && b == 0
            } else {
                a <= b
            }
        }
    }

    /// Whether `self > other`.
    pub fn gt(self, other: Flt) -> (r: bool)
        ensures
            r == other.lt_spec(self),
    {
        other.lt(self)
    }

    /// Whether `self >= other`.
    pub fn ge(self, other: Flt) -> (r: bool)
        ensures
            r == other.le_spec(self),
    {
        other.le(self)
    }

    /// Whether the two are the same number.
    pub fn num_eq(self, other: Flt) -> (r: bool)
        ensures
            r == self.same_number(other),
    {
        if self.is_nan_exec() || other.is_nan_exec() {
            return false;
        }
        let a: u32 = self.bits & MAGNITUDE_MASK;
        let b: u32 = other.bits & MAGNITUDE_MASK;
        if a == 0 && b == 0 {
            return true;
        }
        proof {
            let x = self.bits;
            let y = other.bits;
            assert((x & 0x7fff_ffff) == (y & 0x7fff_ffff) && (x & 0x8000_0000 != 0) == (y
                & 0x8000_0000 != 0) ==> x == y) by (bit_vector);
        }
        self.bits == other.bits
    }

    /// The sum of the two numbers.
    pub fn plus(self, other: Flt) -> (r: Flt)
        ensures
            r == self.plus_spec(other),
    {
        let raw = raw_sum(self.bits, other.bits);
        proof {
            quieted_of_agreeing(raw, sum_bits(self.bits, other.bits));
        }
        Flt { bits: quiet(raw) }
    }

    /// The difference of the two numbers.
    pub fn minus(self, other: Flt) -> (r: Flt)
        ensures
            r == self.minus_spec(other),
    {
        let raw = raw_difference(self.bits, other.bits);
        proof {
            quieted_of_agreeing(raw, difference_bits(self.bits, other.bits));
        }
        Flt { bits: quiet(raw) }
    }

    /// The product of the two numbers.
    pub fn times(self, other: Flt) -> (r: Flt)
        ensures
            r == self.times_spec(other),
    {
        let raw = raw_product(self.bits, other.bits);
        proof {
            quieted_of_agreeing(raw, product_bits(self.bits, other.bits));
        }
        Flt { bits: quiet(raw) }
    }

    /// The quotient of the two numbers.
    pub fn over(self, other: Flt) -> (r: Flt)
        ensures
            r == self.over_spec(other),
    {
        let raw = raw_quotient(self.bits, other.bits);
        proof {
            quieted_of_agreeing(raw, quotient_bits(self.bits, other.bits));
        }
        Flt { bits: quiet(raw) }
    }

    /// The remainder of dividing by `other`.
    pub fn modulo(self, other: Flt) -> (r: Flt)
        ensures
            r == self.modulo_spec(other),
    {
        let raw = raw_remainder(self.bits, other.bits);
        proof {
            quieted_of_agreeing(raw, remainder_bits(self.bits, other.bits));
        }
        Flt { bits: quiet(raw) }
    }

    /// The largest integer that is not above the number.
    pub fn floor(self) -> (r: Flt)
        ensures
            r == self.floor_spec(),
    {
        let raw = raw_floor(self.bits);
        proof {
            quieted_of_agreeing(raw, floor_bits(self.bits));
        }
        Flt { bits: quiet(raw) }
    }

    /// The sine of the number, taken as radians.
    pub fn sin(self) -> (r: Flt)
        ensures
            r == self.sin_spec(),
    {
        let raw = raw_sine(self.bits);
        proof {
            quieted_of_agreeing(raw, sine_bits(self.bits));
        }
        Flt { bits: quiet(raw) }
    }

    /// The cosine of the number, taken as radians.
    pub fn cos(self) -> (r: Flt)
        ensures
            r == self.cos_spec(),
    {
        let raw = raw_cosine(self.bits);
        proof {
            quieted_of_agreeing(raw, cosine_bits(self.bits));
        }
        Flt { bits: quiet(raw) }
    }

    /// The number raised to the power `n`.
    pub fn powi(self, n: u16) -> (r: Flt)
        ensures
            r == self.powi_spec(n),
    {
        let raw = raw_power(self.bits, n);
        proof {
            quieted_of_agreeing(raw, power_bits(self.bits, n));
        }
        Flt { bits: quiet(raw) }
    }

    /// The absolute value.
    pub fn abs(self) -> (r: Flt)
        ensures
            r == self.abs_spec(),
    {
        Flt { bits: self.bits & MAGNITUDE_MASK }
    }

    /// The negation.
    pub fn neg(self) -> (r: Flt)
        ensures
            r == self.neg_spec(),
    {
        Flt { bits: self.bits ^ SIGN_BIT }
    }

    /// The lesser of the two numbers; where one is a NaN, the other.
    pub fn min(self, other: Flt) -> (r: Flt)
        ensures
            r == Flt::min_spec(self, other),
    {
        if self.is_nan_exec() {
            other
        } else if other.is_nan_exec() {
            self
        } else if other.lt(self) {
            other
        } else {
            self
        }
    }

    /// One divided by the number.
    pub fn recip(self) -> (r: Flt)
        ensures
            r == self.recip_spec(),
    {
        Flt { bits: ONE }.over(self)
    }

    /// The number of an unsigned integer, put together from its two halves.
    pub fn from_u32(n: u32) -> (r: Flt)
        ensures
            r == Flt::from_u32_spec(n),
    {
        let high = Flt { bits: raw_small_int((n / 65536) as u16) };
        let low = Flt { bits: raw_small_int((n % 65536) as u16) };
        high.times(Flt { bits: HALF_WORD }).plus(low)
    }

    /// The number cut towards zero and held to what a byte can take.
    pub fn to_u8(self) -> (r: u8)
        ensures
            r == self.to_u8_spec(),
    {
        let exponent: u32 = (self.bits >> 23) & 0xff;
        let mantissa: u32 = (self.bits & 0x007f_ffff) | 0x0080_0000;
        if self.is_nan_exec() || self.bits & SIGN_BIT != 0 || exponent < 127 {
            0
        } else if exponent > 134 {
            255
        } else {
            let shift: u32 = 150 - exponent;
            let bits: u32 = self.bits;
            assert(mantissa >> shift < 256) by (bit_vector)
                requires
                    mantissa == (bits & 0x007f_ffff) | 0x0080_0000,
                    16 <= shift <= 23,
            ;
            (mantissa >> shift) as u8
        }
    }
}

/// A number and its negation have the same absolute value.
pub proof fn lemma_abs_ignores_sign(x: Flt)
    ensures
        x.neg_spec().abs_spec() == x.abs_spec(),
        !x.abs_spec().is_negative(),
        x.abs_spec().magnitude() == x.magnitude(),
{
    let b = x.bits;
    assert((b ^ 0x8000_0000u32) & 0x7fff_ffffu32 == b & 0x7fff_ffffu32) by (bit_vector);
    assert((b & 0x7fff_ffffu32) & 0x8000_0000u32 == 0) by (bit_vector);
    assert((b & 0x7fff_ffffu32) & 0x7fff_ffffu32 == b & 0x7fff_ffffu32) by (bit_vector);
}

/// Cutting to a byte gives 0 for a NaN and for every number below one, and
/// 255 for every number from 255 up, infinity included.
pub proof fn lemma_to_u8_ends(x: Flt)
    ensures
        x.is_nan() || x.lt_spec(Flt::one()) ==> x.to_u8_spec() == 0,
        (Flt { bits: BYTE_MAX }).le_spec(x) ==> x.to_u8_spec() == 255,
{
    let b = x.bits;
    assert(0x3f80_0000u32 & 0x7fff_ffffu32 == 0x3f80_0000u32) by (bit_vector);
    assert(0x3f80_0000u32 & 0x8000_0000u32 == 0) by (bit_vector);
    assert(0x437f_0000u32 & 0x7fff_ffffu32 == 0x437f_0000u32) by (bit_vector);
    assert(0x437f_0000u32 & 0x8000_0000u32 == 0) by (bit_vector);
    assert((b & 0x7fff_ffffu32) < 0x3f80_0000u32 ==> ((b >> 23) & 0xffu32) < 127) by (bit_vector);
    assert((b & 0x8000_0000u32) == 0 && (b & 0x7fff_ffffu32) >= 0x437f_0000u32 && (b
        & 0x7fff_ffffu32) <= 0x7f80_0000u32 ==> ((b >> 23) & 0xffu32) > 134 || (((b >> 23) & 0xffu32)
        == 134 && (((b & 0x007f_ffffu32) | 0x0080_0000u32) >> 16u32) == 255)) by (bit_vector);
    assert((b & 0x8000_0000u32) == 0 ==> (b & 0x7fff_ffffu32) == b) by (bit_vector);
}

/// Cutting to a byte keeps the order: of two numbers, the larger never gets
/// the smaller byte.
pub proof fn lemma_to_u8_keeps_order(x: Flt, y: Flt)
    requires
        x.le_spec(y),
    ensures
        x.to_u8_spec() <= y.to_u8_spec(),
{
    let a = x.bits;
    let b = y.bits;
    let ea = (a >> 23) & 0xffu32;
    let eb = (b >> 23) & 0xffu32;
    let ma = (a & 0x007f_ffffu32) | 0x0080_0000u32;
    let mb = (b & 0x007f_ffffu32) | 0x0080_0000u32;
    if x.is_negative() || ea < 127 {
    } else {
        assert((a & 0x8000_0000u32) == 0 ==> (a & 0x7fff_ffffu32) == a) by (bit_vector);
        assert((b & 0x8000_0000u32) == 0 ==> (b & 0x7fff_ffffu32) == b) by (bit_vector);
        assert((b & 0x8000_0000u32) != 0 ==> (b & 0x7fff_ffffu32) < b) by (bit_vector);
        assert((a & 0x7fff_ffffu32) >= 0x3f80_0000u32) by (bit_vector)
            requires
                ((a >> 23) & 0xffu32) >= 127,
        ;
        assert(!y.is_negative());
        assert(a <= b);
        assert(a <= b ==> ((a >> 23) & 0xffu32) <= ((b >> 23) & 0xffu32)) by (bit_vector)
            requires
                (a & 0x8000_0000u32) == 0,
                (b & 0x8000_0000u32) == 0,
        ;
        if eb > 134 {
        } else {
            let sa: u32 = (150 - ea) as u32;
            let sb: u32 = (150 - eb) as u32;
            assert(((((a & 0x007f_ffffu32) | 0x0080_0000u32) >> sa) as u8) <= ((((b & 0x007f_ffffu32)
                | 0x0080_0000u32) >> sb) as u8)) by (bit_vector)
                requires
                    a <= b,
                    (a & 0x8000_0000u32) == 0,
                    (b & 0x8000_0000u32) == 0,
                    127 <= ((a >> 23) & 0xffu32),
                    ((b >> 23) & 0xffu32) <= 134,
                    sa == 150 - ((a >> 23) & 0xffu32),
                    sb == 150 - ((b >> 23) & 0xffu32),
            ;
        }
    }
}

} // verus!
