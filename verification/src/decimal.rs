//! Exact decimal numbers, held as the parts that `rust_decimal` stores:
//! a 96-bit magnitude in three 32-bit words, a sign flag and a base-10 scale.
use vstd::prelude::*;

use std::str::FromStr;

verus! {

/// The largest scale (number of fractional digits) a decimal can carry.
pub const MAX_SCALE: u32 = 28;

/// `10` raised to `n`.
pub open spec fn pow10(n: nat) -> nat
    decreases n,
{
    if n == 0 {
        1
    } else {
        10 * pow10((n - 1) as nat)
    }
}

/// Every power of ten is at least one.
pub proof fn lemma_pow10_positive(n: nat)
    ensures
        pow10(n) >= 1,
    decreases n,
{
    if n > 0 {
        lemma_pow10_positive((n - 1) as nat);
    }
}

/// A decimal number `(-1)^negative * (lo + mid * 2^32 + hi * 2^64) / 10^scale`.
///
/// The sign flag is kept apart from the magnitude, so that a negative zero
/// (which `rust_decimal` can produce, for instance from `-0.0`) stays distinct
/// from a positive zero for the sign tests, while it compares equal to zero.
/// Equality (`==`) is numeric, as `rust_decimal`'s: `1.0 == 1` and `-0 == 0`.
#[derive(Clone, Copy, Debug, Eq)]
pub struct Dec {
    pub lo: u32,
    pub mid: u32,
    pub hi: u32,
    pub negative: bool,
    pub scale: u32,
}

impl Dec {
    /// The unsigned 96-bit magnitude.
    pub open spec fn magnitude(self) -> nat {
        (self.lo as nat) + (self.mid as nat) * 0x1_0000_0000 + (self.hi as nat)
            * 0x1_0000_0000_0000_0000
    }

    /// The signed numerator, over the denominator `10^scale`.
    pub open spec fn num(self) -> int {
        if self.negative {
            -(self.magnitude() as int)
        } else {
            self.magnitude() as int
        }
    }

    /// The denominator `10^scale`.
    pub open spec fn den(self) -> int {
        pow10(self.scale as nat) as int
    }

    /// The scale lies within what `rust_decimal` accepts.
    pub open spec fn wf(self) -> bool {
        self.scale <= MAX_SCALE
    }

    /// Zero, with a positive sign.
    pub fn zero() -> (d: Dec)
        ensures
            d == (Dec { lo: 0, mid: 0, hi: 0, negative: false, scale: 0 }),
            d.wf(),
            d.num() == 0,
    {
        Dec { lo: 0, mid: 0, hi: 0, negative: false, scale: 0 }
    }

    /// One.
    pub fn one() -> (d: Dec)
        ensures
            d == (Dec { lo: 1, mid: 0, hi: 0, negative: false, scale: 0 }),
            d.wf(),
            d.num() == 1,
            d.den() == 1,
    {
        Dec { lo: 1, mid: 0, hi: 0, negative: false, scale: 0 }
    }

    /// The integer `value`, at scale 0.
    pub fn from_u32(value: u32) -> (d: Dec)
        ensures
            d == (Dec { lo: value, mid: 0, hi: 0, negative: false, scale: 0 }),
            d.wf(),
            d.num() == value,
            d.den() == 1,
    {
        Dec { lo: value, mid: 0, hi: 0, negative: false, scale: 0 }
    }

    /// The magnitude is zero (whatever the sign flag says).
    pub fn is_zero(&self) -> (r: bool)
        ensures
            r == (self.magnitude() == 0),
            r == (self.num() == 0),
    {
        self.lo == 0 && self.mid == 0 && self.hi == 0
    }

    /// The sign flag is set: true for negative numbers and for a negative zero.
    pub fn is_sign_negative(&self) -> (r: bool)
        ensures
            r == self.negative,
    {
        self.negative
    }

    /// The sign flag is clear: true for positive numbers and for a positive zero.
    pub fn is_sign_positive(&self) -> (r: bool)
        ensures
            r == !self.negative,
    {
        !self.negative
    }

    /// The number is at most zero.
    pub fn is_non_positive(&self) -> (r: bool)
        ensures
            r == (self.num() <= 0),
    {
        self.negative || self.is_zero()
    }
}

/// What `rust_decimal`'s `Decimal::from_str` gives for a text: the decimal's
/// parts, or the message of its error.
pub uninterp spec fn decimal_of_text(text: Seq<char>) -> Result<Dec, Seq<char>>;

/// Calls `rust_decimal::Decimal::from_str` on the text. Its result is named
/// (`decimal_of_text`): the parts of the decimal read, which always have a
/// scale of at most 28, or the message of the error.
#[verifier::external_body]
pub(crate) fn dec_from_text(text: &str) -> (r: Result<Dec, String>)
    ensures
        match r {
            Ok(d) => decimal_of_text(text@) == Ok::<Dec, Seq<char>>(d) && d.wf(),
            Err(m) => decimal_of_text(text@) == Err::<Dec, Seq<char>>(m@),
        },
{
    match rust_decimal::Decimal::from_str(text) {
        Ok(v) => {
            let u = v.unpack();
            Ok(Dec { lo: u.lo, mid: u.mid, hi: u.hi, negative: u.negative, scale: u.scale })
        },
        Err(e) => Err(e.to_string()),
    }
}

/// A user-given amount as it was read: the decimal value of a finite number,
/// a number that is not finite, or text to be read as a decimal.
#[derive(Clone, Debug, PartialEq, Eq)]
pub enum AmountInput {
    Finite(Dec),
    NotFinite,
    Text(String),
}

/// Why an amount cannot be read; `label` names it.
#[derive(Clone, Debug, PartialEq, Eq)]
pub enum AmountError {
    /// The number is not finite.
    NotFinite { label: &'static str },
    /// The text is not a decimal; holds the message of the parse error.
    Invalid { label: &'static str, message: String },
}

/// The value an amount is read as: its decimal, or why it has none (`None`
/// for a number that is not finite, the parse error's message for text).
pub open spec fn amount_value(input: AmountInput) -> Result<Dec, Option<Seq<char>>> {
    match input {
        AmountInput::Finite(d) => Ok(d),
        AmountInput::NotFinite => Err(None),
        AmountInput::Text(t) => text_value(t@),
    }
}

/// The value a text is read as: its decimal, or the parse error's message.
pub open spec fn text_value(text: Seq<char>) -> Result<Dec, Option<Seq<char>>> {
    match decimal_of_text(text) {
        Ok(d) => Ok(d),
        Err(m) => Err(Some(m)),
    }
}

/// `e` reports, under `label`, why an amount read as `v` has no value.
pub open spec fn is_amount_error(e: AmountError, v: Result<Dec, Option<Seq<char>>>, label: &'static str) -> bool {
    match v {
        Err(None) => e matches AmountError::NotFinite { label: l } && l == label,
        Err(Some(m)) => e matches AmountError::Invalid { label: l, message } && l == label
            && message@ == m,
        Ok(_) => false,
    }
}

/// `r` is what reading an amount `v` under `label` gives.
pub open spec fn amount_result(r: Result<Dec, AmountError>, v: Result<Dec, Option<Seq<char>>>, label: &'static str) -> bool {
    match v {
        Ok(d) => r == Ok::<Dec, AmountError>(d),
        Err(_) => r matches Err(e) && is_amount_error(e, v, label),
    }
}

/// Read `text` as a decimal; an error names the amount by `label`.
pub fn parse_decimal_text(text: &str, label: &'static str) -> (r: Result<Dec, AmountError>)
    ensures
        amount_result(r, text_value(text@), label),
        r matches Ok(d) ==> d.wf(),
{
    match dec_from_text(text) {
        Ok(d) => Ok(d),
        Err(message) => Err(AmountError::Invalid { label, message }),
    }
}

/// The decimal of an amount as read; an error names the amount by `label`.
pub fn resolve_amount(input: AmountInput, label: &'static str) -> (r: Result<Dec, AmountError>)
    requires
        input matches AmountInput::Finite(d) ==> d.wf(),
    ensures
        amount_result(r, amount_value(input), label),
        r matches Ok(d) ==> d.wf(),
{
    match input {
        AmountInput::Finite(d) => Ok(d),
        AmountInput::NotFinite => Err(AmountError::NotFinite { label }),
        AmountInput::Text(t) => parse_decimal_text(t.as_str(), label),
    }
}

/// `a < b` as rational numbers.
pub open spec fn dec_lt_spec(a: Dec, b: Dec) -> bool {
    a.num() * b.den() < b.num() * a.den()
}

/// `a <= b` as rational numbers.
pub open spec fn dec_le_spec(a: Dec, b: Dec) -> bool {
    a.num() * b.den() <= b.num() * a.den()
}

/// `a` and `b` denote the same rational number.
pub open spec fn dec_eq_spec(a: Dec, b: Dec) -> bool {
    a.num() * b.den() == b.num() * a.den()
}

/// Calls `rust_decimal`'s `<` on the two numbers. `Decimal`'s ordering is the
/// numeric ordering of the values it denotes (zero of either sign compares
/// equal to zero), which the contract states over the numerator and
/// denominator of each side.
#[verifier::external_body]
pub(crate) fn dec_lt(a: &Dec, b: &Dec) -> (r: bool)
    requires
        a.wf(),
        b.wf(),
    ensures
        r == dec_lt_spec(*a, *b),
{
    let mut x = rust_decimal::Decimal::from_parts(a.lo, a.mid, a.hi, a.negative, a.scale);
    x.set_sign_negative(a.negative);
    let mut y = rust_decimal::Decimal::from_parts(b.lo, b.mid, b.hi, b.negative, b.scale);
    y.set_sign_negative(b.negative);
    x < y
}

/// What `==` on decimals decides: numeric equality of two decimals that
/// `rust_decimal` can hold; decimals with a scale above 28 are equal only to
/// themselves, part for part.
pub open spec fn dec_equal(a: Dec, b: Dec) -> bool {
    if a.wf() && b.wf() {
        dec_eq_spec(a, b)
    } else {
        a == b
    }
}

impl PartialEq for Dec {
    /// Numeric equality, as `rust_decimal` compares.
    fn eq(&self, other: &Dec) -> (r: bool) {
        if self.scale <= MAX_SCALE && other.scale <= MAX_SCALE {
            !dec_lt(self, other) && !dec_lt(other, self)
        } else {
            self.lo == other.lo && self.mid == other.mid && self.hi == other.hi && self.negative
                == other.negative && self.scale == other.scale
        }
    }
}

impl vstd::std_specs::cmp::PartialEqSpecImpl for Dec {
    open spec fn obeys_eq_spec() -> bool {
        true
    }

    open spec fn eq_spec(&self, other: &Dec) -> bool {
        dec_equal(*self, *other)
    }
}

/// Whether `a <= b` as rational numbers.
pub fn dec_le(a: &Dec, b: &Dec) -> (r: bool)
    requires
        a.wf(),
        b.wf(),
    ensures
        r == dec_le_spec(*a, *b),
{
    !dec_lt(b, a)
}

} // verus!
