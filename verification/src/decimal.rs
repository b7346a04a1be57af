//! Fixed-point decimal numbers, and the `Price` / `Quantity` newtypes over them.
//!
//! A `Dec` is a 96-bit magnitude, a sign and a scale (0..=28): its value is
//! `±magnitude / 10^scale`. Specifications speak of `value()`, that number
//! multiplied by `10^28`, which is always an integer. Arithmetic, comparison,
//! parsing and printing are done by `rust_decimal`.

use vstd::prelude::*;
use crate::text::digit_char;

verus! {

/// Largest magnitude a decimal can hold: `2^96 - 1`.
pub const MAX_MAGNITUDE: u128 = 0xFFFF_FFFF_FFFF_FFFF_FFFF_FFFF;

/// Largest scale (number of fractional digits).
pub const MAX_SCALE: u32 = 28;

pub open spec fn pow10(n: nat) -> int
    decreases n,
{
    if n == 0 {
        1
    } else {
        10 * pow10((n - 1) as nat)
    }
}

pub proof fn lemma_pow10_pos(n: nat)
    ensures
        pow10(n) > 0,
    decreases n,
{
    if n > 0 {
        lemma_pow10_pos((n - 1) as nat);
    }
}

pub proof fn lemma_pow10_adds(a: nat, b: nat)
    ensures
        pow10(a + b) == pow10(a) * pow10(b),
    decreases a,
{
    if a > 0 {
        lemma_pow10_adds((a - 1) as nat, b);
        assert(pow10(a + b) == 10 * pow10((a - 1 + b) as nat));
        vstd::arithmetic::mul::lemma_mul_is_associative(10, pow10((a - 1) as nat), pow10(b));
    }
}

pub proof fn lemma_pow10_mono(a: nat, b: nat)
    requires
        a <= b,
    ensures
        pow10(a) <= pow10(b),
    decreases b,
{
    lemma_pow10_pos(a);
    if a < b {
        lemma_pow10_mono(a, (b - 1) as nat);
        lemma_pow10_pos((b - 1) as nat);
    }
}

pub proof fn lemma_pow10_28()
    ensures
        pow10(28) == 10_000_000_000_000_000_000_000_000_000,
{
    reveal_with_fuel(pow10, 29);
}

pub open spec fn iabs(x: int) -> int {
    if x < 0 { -x } else { x }
}

pub open spec fn imax(a: nat, b: nat) -> nat {
    if a < b { b } else { a }
}

/// `v` (a value scaled by `10^28`) is below the largest magnitude in size.
pub open spec fn in_range(v: int) -> bool {
    iabs(v) < MAX_MAGNITUDE * pow10(28)
}

/// `v` (a value scaled by `10^28`) has a representation with some scale `<= 28`.
pub open spec fn representable(v: int) -> bool {
    exists|s: nat|
        s <= 28 && #[trigger] (v % pow10((28 - s) as nat)) == 0 && iabs(v / pow10((28 - s) as nat))
            <= MAX_MAGNITUDE
}

#[derive(Clone, Copy, Debug)]
pub struct Dec {
    mag: u128,
    neg: bool,
    scale: u32,
}

/// Result of `rust_decimal::Decimal::checked_add` on the two values.
pub uninterp spec fn decimal_checked_add(a: Dec, b: Dec) -> Option<Dec>;

/// Result of `rust_decimal::Decimal::checked_sub` on the two values.
pub uninterp spec fn decimal_checked_sub(a: Dec, b: Dec) -> Option<Dec>;

/// Result of `rust_decimal::Decimal::checked_mul` on the two values.
pub uninterp spec fn decimal_checked_mul(a: Dec, b: Dec) -> Option<Dec>;

/// Result of `rust_decimal::Decimal::checked_div` on the two values.
pub uninterp spec fn decimal_checked_div(a: Dec, b: Dec) -> Option<Dec>;

/// Result of `<rust_decimal::Decimal as FromStr>::from_str` on the text: the
/// value, or the error's display text.
pub uninterp spec fn decimal_parse(s: Seq<char>) -> Result<Dec, Seq<char>>;

/// The parsed value, `None` when the text does not parse.
pub open spec fn decimal_from_str(s: Seq<char>) -> Option<Dec> {
    match decimal_parse(s) {
        Ok(d) => Some(d),
        Err(_) => None,
    }
}

/// Decimal digits of a magnitude, most significant first; none for zero.
pub open spec fn magnitude_digits(m: nat) -> Seq<char>
    decreases m,
{
    if m == 0 {
        Seq::empty()
    } else {
        magnitude_digits(m / 10).push(digit_char(m % 10))
    }
}

/// Text that `<rust_decimal::Decimal as Display>` writes for the value: a minus
/// sign when the sign flag is set (a zero may carry it too), then the digits of
/// the magnitude. At scale 0 they stand alone, `0` for a zero. Otherwise they
/// are padded with leading zeros to at least `scale` digits, the point stands
/// before the last `scale` of them, and a `0` before the point when no digit
/// is left there.
pub closed spec fn decimal_display(d: Dec) -> Seq<char> {
    let ds = magnitude_digits(d.mag as nat);
    let s = d.scale as nat;
    let padded = if ds.len() < s {
        Seq::new((s - ds.len()) as nat, |i: int| '0') + ds
    } else {
        ds
    };
    let whole = padded.take(padded.len() - s);
    let frac = padded.skip(padded.len() - s);
    let sign = if d.neg {
        seq!['-']
    } else {
        Seq::<char>::empty()
    };
    if s == 0 {
        sign + (if ds.len() == 0 {
            seq!['0']
        } else {
            ds
        })
    } else {
        sign + (if whole.len() == 0 {
            seq!['0']
        } else {
            whole
        }) + seq!['.'] + frac
    }
}

impl Dec {
    /// The magnitude fits in 96 bits and the scale is at most 28.
    #[verifier::type_invariant]
    pub closed spec fn inv(self) -> bool {
        self.mag <= MAX_MAGNITUDE && self.scale <= MAX_SCALE
    }

    /// The scale of a well-formed decimal is at most 28.
    pub proof fn lemma_scale_bound(self)
        requires
            self.inv(),
        ensures
            self.scale_spec() <= 28,
    {
    }

    /// The value of a well-formed decimal has a representation: the number
    /// itself, at its own scale.
    pub proof fn lemma_representable(self)
        requires
            self.inv(),
        ensures
            representable(self.value()),
    {
        let k = (28 - self.scale) as nat;
        lemma_pow10_pos(k);
        let m = self.mantissa_spec();
        vstd::arithmetic::div_mod::lemma_mod_multiples_basic(m, pow10(k));
        vstd::arithmetic::div_mod::lemma_div_multiples_vanish(m, pow10(k));
        vstd::arithmetic::mul::lemma_mul_is_commutative(m, pow10(k));
        assert(self.value() == m * pow10(k));
        assert(self.value() / pow10(k) == m);
        assert(self.value() % pow10((28 - (self.scale as nat)) as nat) == 0);
        assert(iabs(self.value() / pow10((28 - (self.scale as nat)) as nat)) <= MAX_MAGNITUDE);
    }

    /// Signed mantissa.
    pub closed spec fn mantissa_spec(self) -> int {
        if self.neg {
            -(self.mag as int)
        } else {
            self.mag as int
        }
    }

    /// Number of fractional digits.
    pub closed spec fn scale_spec(self) -> nat {
        self.scale as nat
    }

    /// Sign flag (a zero may carry it too).
    pub closed spec fn is_neg_spec(self) -> bool {
        self.neg
    }

    /// The number times `10^28`.
    pub open spec fn value(self) -> int {
        self.mantissa_spec() * pow10((28 - self.scale_spec()) as nat)
    }

    pub open spec fn add_fits(a: Dec, b: Dec) -> bool {
        iabs(a.value() + b.value()) <= MAX_MAGNITUDE * pow10(
            (28 - imax(a.scale_spec(), b.scale_spec())) as nat,
        )
    }

    pub open spec fn sub_fits(a: Dec, b: Dec) -> bool {
        iabs(a.value() - b.value()) <= MAX_MAGNITUDE * pow10(
            (28 - imax(a.scale_spec(), b.scale_spec())) as nat,
        )
    }

    pub open spec fn mul_fits(a: Dec, b: Dec) -> bool {
        a.scale_spec() + b.scale_spec() <= 28 && iabs(a.mantissa_spec() * b.mantissa_spec())
            <= MAX_MAGNITUDE
    }

    /// The exact product `a * b` has a representation.
    pub open spec fn mul_exact(a: Dec, b: Dec) -> bool {
        (a.value() * b.value()) % pow10(28) == 0 && representable((a.value() * b.value()) / pow10(28))
    }

    /// The exact quotient `a / b` exists and has a representation.
    pub open spec fn div_fits(a: Dec, b: Dec) -> bool {
        b.value() != 0 && (a.value() * pow10(28)) % b.value() == 0 && representable(
            (a.value() * pow10(28)) / b.value(),
        )
    }
}

// ── calls into rust_decimal ────────────────────────────────────────────────

/// `rust_decimal::Decimal::checked_add`: `None` only on overflow (never when the
/// sum is below the largest magnitude); the exact sum whenever it fits in 96
/// bits at the larger of the two scales.
#[verifier::external_body]
fn raw_checked_add(a: Dec, b: Dec) -> (r: Option<Dec>)
    ensures
        r == decimal_checked_add(a, b),
        in_range(a.value() + b.value()) ==> r is Some,
        Dec::add_fits(a, b) ==> r is Some && r->0.value() == a.value() + b.value(),
{
    let mut x = rust_decimal::Decimal::from_i128_with_scale(a.mag as i128, a.scale);
    x.set_sign_negative(a.neg);
    let mut y = rust_decimal::Decimal::from_i128_with_scale(b.mag as i128, b.scale);
    y.set_sign_negative(b.neg);
    x.checked_add(y).map(|r| Dec { mag: r.mantissa().unsigned_abs(), neg: r.is_sign_negative(), scale: r.scale() })
}

/// `rust_decimal::Decimal::checked_sub`: `None` only on overflow (never when the
/// difference is below the largest magnitude); the exact difference whenever it
/// fits in 96 bits at the larger of the two scales.
#[verifier::external_body]
fn raw_checked_sub(a: Dec, b: Dec) -> (r: Option<Dec>)
    ensures
        r == decimal_checked_sub(a, b),
        in_range(a.value() - b.value()) ==> r is Some,
        Dec::sub_fits(a, b) ==> r is Some && r->0.value() == a.value() - b.value(),
{
    let mut x = rust_decimal::Decimal::from_i128_with_scale(a.mag as i128, a.scale);
    x.set_sign_negative(a.neg);
    let mut y = rust_decimal::Decimal::from_i128_with_scale(b.mag as i128, b.scale);
    y.set_sign_negative(b.neg);
    x.checked_sub(y).map(|r| Dec { mag: r.mantissa().unsigned_abs(), neg: r.is_sign_negative(), scale: r.scale() })
}

/// `rust_decimal::Decimal::checked_mul`: `None` only on overflow (never when the
/// product is below the largest magnitude); the exact product whenever the
/// mantissa product fits in 96 bits and the scales add up to at most 28, and
/// more generally whenever the exact product has a representation (the
/// digits that rescaling then drops are zeros, so nothing is rounded).
#[verifier::external_body]
fn raw_checked_mul(a: Dec, b: Dec) -> (r: Option<Dec>)
    ensures
        r == decimal_checked_mul(a, b),
        iabs(a.value() * b.value()) < MAX_MAGNITUDE * pow10(28) * pow10(28) ==> r is Some,
        Dec::mul_fits(a, b) ==> r is Some && r->0.value() * pow10(28) == a.value() * b.value(),
        Dec::mul_exact(a, b) ==> r is Some && r->0.value() * pow10(28) == a.value() * b.value(),
{
    let mut x = rust_decimal::Decimal::from_i128_with_scale(a.mag as i128, a.scale);
    x.set_sign_negative(a.neg);
    let mut y = rust_decimal::Decimal::from_i128_with_scale(b.mag as i128, b.scale);
    y.set_sign_negative(b.neg);
    x.checked_mul(y).map(|r| Dec { mag: r.mantissa().unsigned_abs(), neg: r.is_sign_negative(), scale: r.scale() })
}

/// `rust_decimal::Decimal::checked_div`: `None` on a zero divisor; never
/// `None` for a divisor of magnitude at least one (the quotient is then no
/// larger than the dividend); the exact quotient whenever it has a representation.
#[verifier::external_body]
fn raw_checked_div(a: Dec, b: Dec) -> (r: Option<Dec>)
    ensures
        r == decimal_checked_div(a, b),
        b.value() == 0 ==> r is None,
        iabs(b.value()) >= pow10(28) ==> r is Some,
        Dec::div_fits(a, b) ==> r is Some && r->0.value() * b.value() == a.value() * pow10(28),
{
    let mut x = rust_decimal::Decimal::from_i128_with_scale(a.mag as i128, a.scale);
    x.set_sign_negative(a.neg);
    let mut y = rust_decimal::Decimal::from_i128_with_scale(b.mag as i128, b.scale);
    y.set_sign_negative(b.neg);
    x.checked_div(y).map(|r| Dec { mag: r.mantissa().unsigned_abs(), neg: r.is_sign_negative(), scale: r.scale() })
}

/// `<rust_decimal::Decimal as PartialOrd>::lt`: compares the exact values.
#[verifier::external_body]
fn raw_lt(a: Dec, b: Dec) -> (r: bool)
    ensures
        r == (a.value() < b.value()),
{
    let mut x = rust_decimal::Decimal::from_i128_with_scale(a.mag as i128, a.scale);
    x.set_sign_negative(a.neg);
    let mut y = rust_decimal::Decimal::from_i128_with_scale(b.mag as i128, b.scale);
    y.set_sign_negative(b.neg);
    x < y
}

/// `<rust_decimal::Decimal as PartialEq>::eq`: equality of the exact values.
#[verifier::external_body]
fn raw_eq(a: Dec, b: Dec) -> (r: bool)
    ensures
        r == (a.value() == b.value()),
{
    let mut x = rust_decimal::Decimal::from_i128_with_scale(a.mag as i128, a.scale);
    x.set_sign_negative(a.neg);
    let mut y = rust_decimal::Decimal::from_i128_with_scale(b.mag as i128, b.scale);
    y.set_sign_negative(b.neg);
    x == y
}

/// `<rust_decimal::Decimal as FromStr>::from_str`, its error as display text.
/// Beyond naming the result, it states what the source shows: the text that
/// `Display` writes for a decimal (its digits, the point at its scale, a sign)
/// parses back to a decimal of the same value.
#[verifier::external_body]
fn raw_parse(s: &str) -> (r: Result<Dec, String>)
    ensures
        match r {
            Ok(d) => decimal_parse(s@) == Ok::<Dec, Seq<char>>(d),
            Err(e) => decimal_parse(s@) == Err::<Dec, Seq<char>>(e@),
        },
        r matches Ok(p) ==> (forall|d: Dec| s@ == #[trigger] decimal_display(d) ==> p.value() == d.value()),
        r is Err ==> !(exists|d: Dec| s@ == #[trigger] decimal_display(d)),
{
    match s.parse::<rust_decimal::Decimal>() {
        Ok(r) => Ok(Dec { mag: r.mantissa().unsigned_abs(), neg: r.is_sign_negative(), scale: r.scale() }),
        Err(e) => Err(e.to_string()),
    }
}

/// `<rust_decimal::Decimal as Display>` through `to_string`.
#[verifier::external_body]
fn raw_to_string(a: Dec) -> (r: String)
    ensures
        r@ == decimal_display(a),
{
    let mut x = rust_decimal::Decimal::from_i128_with_scale(a.mag as i128, a.scale);
    x.set_sign_negative(a.neg);
    x.to_string()
}

// ── verified operations ────────────────────────────────────────────────────

/// `10^n` as an integer, for `n <= 28`.
fn pow10_u128(n: u32) -> (r: u128)
    requires
        n <= 28,
    ensures
        r == pow10(n as nat),
        r > 0,
{
    let mut r: u128 = 1;
    let mut i: u32 = 0;
    proof {
        lemma_pow10_mono(0, 28);
    }
    while i < n
        invariant
            i <= n <= 28,
            r == pow10(i as nat),
            r > 0,
            r <= pow10(28),
        decreases n - i,
    {
        proof {
            lemma_pow10_mono((i + 1) as nat, 28);
            lemma_pow10_28();
        }
        r = r * 10;
        i = i + 1;
    }
    r
}

impl Dec {
    pub fn zero() -> (r: Dec)
        ensures
            r == Dec::whole(0),
            r.value() == 0,
            r.mantissa_spec() == 0,
            r.scale_spec() == 0,
            !r.is_neg_spec(),
    {
        let r = Dec { mag: 0, neg: false, scale: 0 };
        assert(r.mantissa_spec() == 0);
        assert(r.value() == 0) by {
            vstd::arithmetic::mul::lemma_mul_basics(pow10(28));
        }
        r
    }

    /// The number two (scale 0).
    pub closed spec fn two_spec() -> Dec {
        Dec { mag: 2, neg: false, scale: 0 }
    }

    /// The whole number `n` (scale 0, no sign).
    pub closed spec fn whole(n: u64) -> Dec {
        Dec { mag: n as u128, neg: false, scale: 0 }
    }

    /// `m / 10^scale` (no sign).
    pub closed spec fn scaled(m: u64, scale: u32) -> Dec {
        Dec { mag: m as u128, neg: false, scale }
    }

    /// `m / 10^scale`, for a scale of at most 28.
    pub fn from_scaled(m: u64, scale: u32) -> (r: Dec)
        requires
            scale <= MAX_SCALE,
        ensures
            r == Dec::scaled(m, scale),
    {
        Dec { mag: m as u128, neg: false, scale }
    }

    pub proof fn lemma_whole(n: u64)
        ensures
            Dec::whole(n).mantissa_spec() == n,
            Dec::whole(n).scale_spec() == 0,
            Dec::whole(n).value() == n * pow10(28),
            !Dec::whole(n).is_neg_spec(),
    {
    }

    /// Same magnitude and scale, sign flag flipped.
    pub closed spec fn neg_spec(self) -> Dec {
        Dec { mag: self.mag, neg: !self.neg, scale: self.scale }
    }

    /// Smallest integer not below the number, as `ceil` builds it.
    pub closed spec fn ceil_spec(self) -> Dec {
        if self.scale == 0 {
            self
        } else {
            Dec {
                mag: (self.mag as int / pow10(self.scale as nat) + (if !self.neg && self.mag as int % pow10(
                    self.scale as nat,
                ) != 0 {
                    1int
                } else {
                    0int
                })) as u128,
                neg: self.neg,
                scale: 0,
            }
        }
    }

    /// Rounded to `dp` fractional digits away from zero, as `round_dp_away` builds it.
    pub closed spec fn round_dp_away_spec(self, dp: u32) -> Dec {
        if self.scale <= dp {
            self
        } else {
            Dec {
                mag: (self.mag as int / pow10((self.scale - dp) as nat) + (if self.mag as int % pow10(
                    (self.scale - dp) as nat,
                ) != 0 {
                    1int
                } else {
                    0int
                })) as u128,
                neg: self.neg,
                scale: dp,
            }
        }
    }

    /// The integer part, sign kept, scale 0.
    pub closed spec fn trunc_spec(self) -> Dec {
        Dec { mag: (self.mag as int / pow10(self.scale as nat)) as u128, neg: self.neg, scale: 0 }
    }

    pub proof fn lemma_two_spec()
        ensures
            Dec::two_spec().mantissa_spec() == 2,
            Dec::two_spec().scale_spec() == 0,
            Dec::two_spec().value() == 2 * pow10(28),
            !Dec::two_spec().is_neg_spec(),
    {
    }

    pub fn two() -> (r: Dec)
        ensures
            r == Dec::two_spec(),
            r == Dec::whole(2),
            r.mantissa_spec() == 2,
            r.scale_spec() == 0,
            r.value() == 2 * pow10(28),
            !r.is_neg_spec(),
    {
        Dec { mag: 2, neg: false, scale: 0 }
    }

    pub fn one() -> (r: Dec)
        ensures
            r == Dec::whole(1),
            r.mantissa_spec() == 1,
            r.scale_spec() == 0,
            r.value() == pow10(28),
            !r.is_neg_spec(),
    {
        Dec { mag: 1, neg: false, scale: 0 }
    }

    /// `num / 10^scale`, as `rust_decimal::Decimal::new` builds it.
    pub fn new(num: i64, scale: u32) -> (r: Dec)
        requires
            scale <= MAX_SCALE,
        ensures
            r.mantissa_spec() == num,
            r.scale_spec() == scale,
            r.is_neg_spec() == (num < 0),
    {
        let mag: u128 = if num < 0 {
            (0i128 - (num as i128)) as u128
        } else {
            num as u128
        };
        Dec { mag, neg: num < 0, scale }
    }

    /// The whole number `n`.
    pub fn from_u64(n: u64) -> (r: Dec)
        ensures
            r == Dec::whole(n),
            r.mantissa_spec() == n,
            r.scale_spec() == 0,
            r.value() == n * pow10(28),
            !r.is_neg_spec(),
    {
        Dec { mag: n as u128, neg: false, scale: 0 }
    }

    pub fn mantissa(&self) -> (r: i128)
        ensures
            r == self.mantissa_spec(),
    {
        proof {
            use_type_invariant(self);
        }
        if self.neg {
            0i128 - (self.mag as i128)
        } else {
            self.mag as i128
        }
    }

    pub fn scale(&self) -> (r: u32)
        ensures
            r == self.scale_spec(),
            r <= MAX_SCALE,
    {
        proof {
            use_type_invariant(self);
        }
        self.scale
    }

    pub fn is_zero(&self) -> (r: bool)
        ensures
            r == (self.value() == 0),
            r == (self.mantissa_spec() == 0),
    {
        proof {
            use_type_invariant(self);
            lemma_pow10_pos((28 - self.scale_spec()) as nat);
            vstd::arithmetic::mul::lemma_mul_nonzero(
                self.mantissa_spec(),
                pow10((28 - self.scale_spec()) as nat),
            );
        }
        self.mag == 0
    }

    pub fn is_sign_negative(&self) -> (r: bool)
        ensures
            r == self.is_neg_spec(),
    {
        self.neg
    }
}

pub open spec fn trunc_mantissa(m: int, s: nat) -> int {
    if m < 0 {
        -((-m) / pow10(s))
    } else {
        m / pow10(s)
    }
}

impl Dec {
    pub fn checked_add(self, other: Dec) -> (r: Option<Dec>)
        ensures
            r == decimal_checked_add(self, other),
            in_range(self.value() + other.value()) ==> r is Some,
            Dec::add_fits(self, other) ==> r is Some && r->0.value() == self.value() + other.value(),
    {
        raw_checked_add(self, other)
    }

    /// `self + other`; the sum must not overflow.
    pub fn add(self, other: Dec) -> (r: Dec)
        requires
            in_range(self.value() + other.value()),
        ensures
            decimal_checked_add(self, other) == Some(r),
            Dec::add_fits(self, other) ==> r.value() == self.value() + other.value(),
    {
        raw_checked_add(self, other).unwrap()
    }

    pub fn checked_sub(self, other: Dec) -> (r: Option<Dec>)
        ensures
            r == decimal_checked_sub(self, other),
            in_range(self.value() - other.value()) ==> r is Some,
            Dec::sub_fits(self, other) ==> r is Some && r->0.value() == self.value() - other.value(),
    {
        raw_checked_sub(self, other)
    }

    /// `self - other`; the difference must not overflow.
    pub fn sub(self, other: Dec) -> (r: Dec)
        requires
            in_range(self.value() - other.value()),
        ensures
            decimal_checked_sub(self, other) == Some(r),
            Dec::sub_fits(self, other) ==> r.value() == self.value() - other.value(),
    {
        raw_checked_sub(self, other).unwrap()
    }

    pub fn checked_mul(self, other: Dec) -> (r: Option<Dec>)
        ensures
            r == decimal_checked_mul(self, other),
            iabs(self.value() * other.value()) < MAX_MAGNITUDE * pow10(28) * pow10(28) ==> r is Some,
            Dec::mul_fits(self, other) ==> r is Some && r->0.value() * pow10(28) == self.value()
                * other.value(),
            Dec::mul_exact(self, other) ==> r is Some && r->0.value() * pow10(28) == self.value()
                * other.value(),
    {
        raw_checked_mul(self, other)
    }

    /// `self * other`; the product must not overflow.
    pub fn mul(self, other: Dec) -> (r: Dec)
        requires
            iabs(self.value() * other.value()) < MAX_MAGNITUDE * pow10(28) * pow10(28),
        ensures
            decimal_checked_mul(self, other) == Some(r),
            Dec::mul_fits(self, other) ==> r.value() * pow10(28) == self.value() * other.value(),
            Dec::mul_exact(self, other) ==> r.value() * pow10(28) == self.value() * other.value(),
    {
        raw_checked_mul(self, other).unwrap()
    }

    pub fn checked_div(self, other: Dec) -> (r: Option<Dec>)
        ensures
            r == decimal_checked_div(self, other),
            other.value() == 0 ==> r is None,
            iabs(other.value()) >= pow10(28) ==> r is Some,
            Dec::div_fits(self, other) ==> r is Some && r->0.value() * other.value() == self.value()
                * pow10(28),
    {
        raw_checked_div(self, other)
    }

    /// `self / other` for a divisor of magnitude at least one.
    pub fn div(self, other: Dec) -> (r: Dec)
        requires
            iabs(other.value()) >= pow10(28),
        ensures
            decimal_checked_div(self, other) == Some(r),
            Dec::div_fits(self, other) ==> r.value() * other.value() == self.value() * pow10(28),
    {
        raw_checked_div(self, other).unwrap()
    }

    pub fn lt(&self, other: &Dec) -> (r: bool)
        ensures
            r == (self.value() < other.value()),
    {
        raw_lt(*self, *other)
    }

    pub fn le(&self, other: &Dec) -> (r: bool)
        ensures
            r == (self.value() <= other.value()),
    {
        !raw_lt(*other, *self)
    }

    pub fn gt(&self, other: &Dec) -> (r: bool)
        ensures
            r == (self.value() > other.value()),
    {
        raw_lt(*other, *self)
    }

    pub fn ge(&self, other: &Dec) -> (r: bool)
        ensures
            r == (self.value() >= other.value()),
    {
        !raw_lt(*self, *other)
    }

    /// Equality of values (`0.5` equals `0.50`).
    pub fn eq_value(&self, other: &Dec) -> (r: bool)
        ensures
            r == (self.value() == other.value()),
    {
        raw_eq(*self, *other)
    }

    /// The larger of the two; `other` when they are equal (as `Ord::max`).
    pub fn max(self, other: Dec) -> (r: Dec)
        ensures
            r == Dec::ord_max(self, other),
    {
        if raw_lt(other, self) {
            self
        } else {
            other
        }
    }

    pub open spec fn ord_max(a: Dec, b: Dec) -> Dec {
        if b.value() < a.value() {
            a
        } else {
            b
        }
    }

    /// The smaller of the two; `self` when they are equal.
    pub fn min(self, other: Dec) -> (r: Dec)
        ensures
            r == (if self.value() > other.value() {
                other
            } else {
                self
            }),
    {
        if raw_lt(other, self) {
            other
        } else {
            self
        }
    }

    /// Same magnitude and scale, sign cleared.
    pub fn abs(&self) -> (r: Dec)
        ensures
            r.mantissa_spec() == iabs(self.mantissa_spec()),
            r.scale_spec() == self.scale_spec(),
            !r.is_neg_spec(),
            r.value() == iabs(self.value()),
    {
        proof {
            use_type_invariant(self);
            lemma_pow10_pos((28 - self.scale_spec()) as nat);
            if self.neg {
                vstd::arithmetic::mul::lemma_mul_unary_negation(
                    self.mag as int,
                    pow10((28 - self.scale_spec()) as nat),
                );
            }
            vstd::arithmetic::mul::lemma_mul_nonnegative(
                self.mag as int,
                pow10((28 - self.scale_spec()) as nat),
            );
        }
        Dec { mag: self.mag, neg: false, scale: self.scale }
    }

    /// `-self` (sign flipped).
    pub fn neg(&self) -> (r: Dec)
        ensures
            r == self.neg_spec(),
            r.scale_spec() == self.scale_spec(),
            r.is_neg_spec() == !self.is_neg_spec(),
            r.value() == -self.value(),
    {
        proof {
            use_type_invariant(self);
            vstd::arithmetic::mul::lemma_mul_unary_negation(
                self.mag as int,
                pow10((28 - self.scale_spec()) as nat),
            );
        }
        Dec { mag: self.mag, neg: !self.neg, scale: self.scale }
    }

    /// Integer part, no rounding (`rust_decimal::Decimal::trunc`): scale 0, sign kept.
    pub fn trunc(&self) -> (r: Dec)
        ensures
            r == self.trunc_spec(),
            r.mantissa_spec() == trunc_mantissa(self.mantissa_spec(), self.scale_spec()),
            r.scale_spec() == 0,
            r.is_neg_spec() == self.is_neg_spec(),
    {
        proof {
            use_type_invariant(self);
        }
        let p = pow10_u128(self.scale);
        proof {
            vstd::arithmetic::div_mod::lemma_div_is_ordered_by_denominator(self.mag as int, 1, p as int);
            vstd::arithmetic::div_mod::lemma_div_pos_is_pos(self.mag as int, p as int);
        }
        Dec { mag: self.mag / p, neg: self.neg, scale: 0 }
    }

    /// Smallest integer not below the number (`rust_decimal::Decimal::ceil`).
    pub fn ceil(&self) -> (r: Dec)
        ensures
            r == self.ceil_spec(),
            self.scale_spec() == 0 ==> r == *self,
            self.scale_spec() != 0 ==> {
                &&& r.scale_spec() == 0
                &&& r.is_neg_spec() == self.is_neg_spec()
                &&& r.mantissa_spec() == trunc_mantissa(self.mantissa_spec(), self.scale_spec()) + (
                if !self.is_neg_spec() && iabs(self.mantissa_spec()) % pow10(self.scale_spec())
                    != 0 {
                    1int
                } else {
                    0int
                })
            },
    {
        proof {
            use_type_invariant(self);
        }
        if self.scale == 0 {
            return *self;
        }
        let p = pow10_u128(self.scale);
        proof {
            vstd::arithmetic::div_mod::lemma_div_is_ordered_by_denominator(self.mag as int, 1, 10);
            lemma_pow10_mono(1, self.scale as nat);
            vstd::arithmetic::div_mod::lemma_div_is_ordered_by_denominator(self.mag as int, 10, p as int);
            vstd::arithmetic::div_mod::lemma_div_pos_is_pos(self.mag as int, p as int);
        }
        let t = self.mag / p;
        let up: u128 = if !self.neg && self.mag % p != 0 {
            1
        } else {
            0
        };
        Dec { mag: t + up, neg: self.neg, scale: 0 }
    }

    /// Round to `dp` fractional digits, away from zero
    /// (`round_dp_with_strategy(dp, RoundingStrategy::AwayFromZero)`).
    pub fn round_dp_away(&self, dp: u32) -> (r: Dec)
        ensures
            r == self.round_dp_away_spec(dp),
            self.scale_spec() <= dp ==> r == *self,
            self.scale_spec() > dp ==> {
                &&& r.scale_spec() == dp
                &&& r.is_neg_spec() == self.is_neg_spec()
                &&& iabs(r.mantissa_spec()) == iabs(self.mantissa_spec()) / pow10(
                    (self.scale_spec() - dp) as nat,
                ) + (if iabs(self.mantissa_spec()) % pow10((self.scale_spec() - dp) as nat) != 0 {
                    1int
                } else {
                    0int
                })
                &&& (r.mantissa_spec() < 0 ==> self.is_neg_spec())
                &&& (self.is_neg_spec() ==> r.mantissa_spec() <= 0)
            },
    {
        proof {
            use_type_invariant(self);
        }
        if self.scale <= dp {
            return *self;
        }
        let p = pow10_u128(self.scale - dp);
        proof {
            lemma_pow10_mono(1, (self.scale - dp) as nat);
            vstd::arithmetic::div_mod::lemma_div_is_ordered_by_denominator(self.mag as int, 1, 10);
            vstd::arithmetic::div_mod::lemma_div_is_ordered_by_denominator(self.mag as int, 10, p as int);
            vstd::arithmetic::div_mod::lemma_div_pos_is_pos(self.mag as int, p as int);
        }
        let t = self.mag / p;
        let up: u128 = if self.mag % p != 0 {
            1
        } else {
            0
        };
        Dec { mag: t + up, neg: self.neg, scale: dp }
    }

    /// Decimal text, as `rust_decimal` prints it.
    pub fn to_string(&self) -> (r: String)
        ensures
            r@ == decimal_display(*self),
    {
        raw_to_string(*self)
    }

    /// Parse decimal text, as `rust_decimal`'s `FromStr` does.
    pub fn parse_str(s: &str) -> (r: Option<Dec>)
        ensures
            r == decimal_from_str(s@),
            r matches Some(p) ==> (forall|d: Dec| s@ == #[trigger] decimal_display(d) ==> p.value() == d.value()),
            r is None ==> !(exists|d: Dec| s@ == #[trigger] decimal_display(d)),
    {
        match raw_parse(s) {
            Ok(d) => Some(d),
            Err(_) => None,
        }
    }

    /// Parse decimal text; the error is the parser's message.
    pub fn parse_result(s: &str) -> (r: Result<Dec, String>)
        ensures
            match r {
                Ok(d) => decimal_parse(s@) == Ok::<Dec, Seq<char>>(d),
                Err(e) => decimal_parse(s@) == Err::<Dec, Seq<char>>(e@),
            },
    {
        raw_parse(s)
    }
}

impl PartialEq for Dec {
    fn eq(&self, other: &Dec) -> (r: bool) {
        raw_eq(*self, *other)
    }
}

impl Eq for Dec {

}

impl vstd::std_specs::cmp::PartialEqSpecImpl for Dec {
    open spec fn obeys_eq_spec() -> bool {
        true
    }

    open spec fn eq_spec(&self, other: &Dec) -> bool {
        self.value() == other.value()
    }
}

/// A price.
#[derive(Clone, Copy, Debug, PartialEq, Eq)]
pub struct Price(pub Dec);

/// A quantity; signed where it stands for a position.
#[derive(Clone, Copy, Debug, PartialEq, Eq)]
pub struct Quantity(pub Dec);

impl Price {
    pub open spec fn dec(self) -> Dec {
        self.0
    }

    pub open spec fn value(self) -> int {
        self.0.value()
    }

    pub fn new(val: Dec) -> (r: Price)
        ensures
            r.0 == val,
    {
        Price(val)
    }

    pub fn zero() -> (r: Price)
        ensures
            r == Price(Dec::whole(0)),
            r.0.value() == 0,
            r.0.scale_spec() == 0,
            !r.0.is_neg_spec(),
    {
        Price(Dec::zero())
    }

    pub fn inner(&self) -> (r: Dec)
        ensures
            r == self.0,
    {
        self.0
    }

    /// Decimal text of the price.
    pub fn to_string(&self) -> (r: String)
        ensures
            r@ == decimal_display(self.0),
    {
        self.0.to_string()
    }
}

impl Quantity {
    pub open spec fn dec(self) -> Dec {
        self.0
    }

    pub open spec fn value(self) -> int {
        self.0.value()
    }

    pub fn new(val: Dec) -> (r: Quantity)
        ensures
            r.0 == val,
    {
        Quantity(val)
    }

    pub fn zero() -> (r: Quantity)
        ensures
            r == Quantity(Dec::whole(0)),
            r.0.value() == 0,
            r.0.scale_spec() == 0,
            !r.0.is_neg_spec(),
    {
        Quantity(Dec::zero())
    }

    pub fn inner(&self) -> (r: Dec)
        ensures
            r == self.0,
    {
        self.0
    }

    /// Same magnitude, sign cleared.
    pub fn abs(&self) -> (r: Quantity)
        ensures
            r.0.value() == iabs(self.0.value()),
            r.0.mantissa_spec() == iabs(self.0.mantissa_spec()),
            r.0.scale_spec() == self.0.scale_spec(),
            !r.0.is_neg_spec(),
    {
        Quantity(self.0.abs())
    }

    /// Decimal text of the quantity.
    pub fn to_string(&self) -> (r: String)
        ensures
            r@ == decimal_display(self.0),
    {
        self.0.to_string()
    }
}

} // verus!
