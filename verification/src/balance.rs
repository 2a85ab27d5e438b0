//! Asset balances and the validation of balances given by the user, including
//! the initial balances that a system can be seeded with.
use vstd::prelude::*;
use vstd::string::StringExecFns;

use crate::exchange::{Exchange, exchange_from_quoted, exchange_of_quoted};

use crate::decimal::{
    pow10, AmountError, AmountInput, Dec, amount_value, dec_le_spec, dec_lt, dec_lt_spec,
    is_amount_error, lemma_pow10_positive, parse_decimal_text, resolve_amount, text_value,
};
use crate::text::{chars_of, lower, lower_range, trim, trim_bounds};

verus! {

/// Total and free amounts of an asset.
#[derive(Clone, Copy, Debug, PartialEq, Eq)]
pub struct Balance {
    pub total: Dec,
    pub free: Dec,
}

/// Why a balance is refused.
#[derive(Clone, Copy, Debug, PartialEq, Eq)]
pub enum BalanceError {
    /// The total carries a negative sign.
    TotalNegative,
    /// The free amount carries a negative sign.
    FreeNegative,
    /// The free amount is larger than the total.
    FreeExceedsTotal,
}

/// Why an entry of the initial balances is refused; `index` is its position.
#[derive(Debug)]
pub enum InitialBalanceError {
    /// The exchange label is empty once surrounding whitespace is removed.
    EmptyExchange { index: usize },
    /// The exchange label names no known exchange; holds the label as given.
    UnknownExchange { index: usize, raw: String },
    /// The free amount is larger than the total.
    FreeExceedsTotal { index: usize },
    /// An amount cannot be read.
    InvalidAmount { index: usize, error: AmountError },
}

/// Why a balance given as text is refused.
#[derive(Debug)]
pub enum BalanceTextError {
    /// An amount is not a decimal.
    Invalid(AmountError),
    /// The amounts are refused as a balance.
    Refused(BalanceError),
}

/// What `balance_new` gives for two amounts.
pub open spec fn balance_outcome(total: Dec, free: Dec) -> Result<Balance, BalanceError> {
    if total.negative {
        Err(BalanceError::TotalNegative)
    } else if free.negative {
        Err(BalanceError::FreeNegative)
    } else if dec_lt_spec(total, free) {
        Err(BalanceError::FreeExceedsTotal)
    } else {
        Ok(Balance { total, free })
    }
}

/// Build a balance from amounts given as text, read as decimals (the total
/// first), then checked as `balance_new` checks them.
pub fn balance_from_text(total: &str, free: &str) -> (r: Result<Balance, BalanceTextError>)
    ensures
        match text_value(total@) {
            Err(_) => r matches Err(BalanceTextError::Invalid(e)) && is_amount_error(
                e,
                text_value(total@),
                "total",
            ),
            Ok(t) => match text_value(free@) {
                Err(_) => r matches Err(BalanceTextError::Invalid(e)) && is_amount_error(
                    e,
                    text_value(free@),
                    "free",
                ),
                Ok(f) => match balance_outcome(t, f) {
                    Ok(b) => r matches Ok(x) && x == b,
                    Err(e) => r matches Err(BalanceTextError::Refused(x)) && x == e,
                },
            },
        },
{
    let t = match parse_decimal_text(total, "total") {
        Ok(t) => t,
        Err(e) => return Err(BalanceTextError::Invalid(e)),
    };
    let f = match parse_decimal_text(free, "free") {
        Ok(f) => f,
        Err(e) => return Err(BalanceTextError::Invalid(e)),
    };
    match balance_new(t, f) {
        Ok(b) => Ok(b),
        Err(e) => Err(BalanceTextError::Refused(e)),
    }
}

/// The balance of the initial balance entry at position `index` from its
/// amounts as read: the total, then the free amount (the total when absent),
/// each read as a decimal, then checked as `initial_balance` checks them.
pub fn initial_balance_from_inputs(index: usize, total: AmountInput, free: Option<AmountInput>) -> (r:
    Result<Balance, InitialBalanceError>)
    requires
        total matches AmountInput::Finite(d) ==> d.wf(),
        free matches Some(AmountInput::Finite(d)) ==> d.wf(),
    ensures
        match amount_value(total) {
            Err(_) => r matches Err(InitialBalanceError::InvalidAmount { index: i, error: e })
                && i == index && is_amount_error(e, amount_value(total), "total"),
            Ok(t) => match free {
                Some(fi) if amount_value(fi) is Err => r matches Err(
                    InitialBalanceError::InvalidAmount { index: i, error: e },
                ) && i == index && is_amount_error(e, amount_value(fi), "free"),
                _ => {
                    let f = match free {
                        Some(fi) => amount_value(fi)->Ok_0,
                        None => t,
                    };
                    &&& dec_lt_spec(t, f) ==> (r matches Err(
                        InitialBalanceError::FreeExceedsTotal { index: i },
                    ) && i == index)
                    &&& !dec_lt_spec(t, f) ==> (r matches Ok(b) && b == Balance { total: t, free: f })
                },
            },
        },
{
    let t = match resolve_amount(total, "total") {
        Ok(t) => t,
        Err(e) => return Err(InitialBalanceError::InvalidAmount { index, error: e }),
    };
    let f = match free {
        Some(fi) => match resolve_amount(fi, "free") {
            Ok(f) => Some(f),
            Err(e) => return Err(InitialBalanceError::InvalidAmount { index, error: e }),
        },
        None => None,
    };
    initial_balance(index, t, f)
}

/// What `barter_execution::balance::Balance::used` returns for a balance of
/// the given total and free amounts.
pub uninterp spec fn balance_used(total: Dec, free: Dec) -> Dec;

/// The largest magnitude a decimal can hold, `2^96 - 1`.
pub open spec fn max_magnitude() -> int {
    0xffff_ffff_ffff_ffff_ffff_ffff
}

/// The larger of the scales of two decimals.
pub open spec fn common_scale(a: Dec, b: Dec) -> nat {
    if a.scale >= b.scale {
        a.scale as nat
    } else {
        b.scale as nat
    }
}

/// The numerator of `d` over the denominator `10^s`, for `s` at least its scale.
pub open spec fn aligned_num(d: Dec, s: nat) -> int {
    d.num() * pow10((s - d.scale) as nat)
}

/// Both amounts and their difference, written at their larger scale, fit in 96 bits.
pub open spec fn difference_fits(total: Dec, free: Dec) -> bool {
    let s = common_scale(total, free);
    let t = aligned_num(total, s);
    let f = aligned_num(free, s);
    &&& -max_magnitude() <= t <= max_magnitude()
    &&& -max_magnitude() <= f <= max_magnitude()
    &&& -max_magnitude() <= t - f <= max_magnitude()
}

/// `r` denotes the exact difference of `total` and `free`.
pub open spec fn is_exact_difference(r: Dec, total: Dec, free: Dec) -> bool {
    let s = common_scale(total, free);
    r.num() * (pow10(s) as int) == (aligned_num(total, s) - aligned_num(free, s)) * r.den()
}

/// Calls `barter_execution::balance::Balance::used`, which subtracts the free
/// amount from the total with `rust_decimal`'s `-`. The result is named. The
/// contract states that it has the sign of the exact difference (it is not
/// negative when the free amount is at most the total), that it is the exact
/// difference whenever both amounts and their difference, written at the
/// larger of the two scales, fit in 96 bits, and that for two amounts of the
/// same scale it then has that scale. Otherwise `rust_decimal` rounds the
/// difference to a smaller scale, which is left unsaid. The subtraction panics only when the difference is larger in
/// size than the largest decimal, which `requires` excludes.
#[verifier::external_body]
fn used_of(total: &Dec, free: &Dec) -> (r: Dec)
    requires
        total.wf(),
        free.wf(),
        -max_magnitude() * total.den() * free.den() <= total.num() * free.den() - free.num()
            * total.den() <= max_magnitude() * total.den() * free.den(),
    ensures
        r == balance_used(*total, *free),
        r.wf(),
        dec_le_spec(*free, *total) ==> r.num() >= 0,
        difference_fits(*total, *free) ==> is_exact_difference(r, *total, *free),
        total.scale == free.scale && -max_magnitude() <= total.num() - free.num()
            <= max_magnitude() ==> r.num() == total.num() - free.num() && r.scale == total.scale,
{
    let mut t = rust_decimal::Decimal::from_parts(total.lo, total.mid, total.hi, total.negative, total.scale);
    t.set_sign_negative(total.negative);
    let mut f = rust_decimal::Decimal::from_parts(free.lo, free.mid, free.hi, free.negative, free.scale);
    f.set_sign_negative(free.negative);
    let u = barter_execution::balance::Balance::new(t, f).used().unpack();
    Dec { lo: u.lo, mid: u.mid, hi: u.hi, negative: u.negative, scale: u.scale }
}

impl Balance {
    /// Both amounts are well-formed decimals.
    pub open spec fn wf(self) -> bool {
        self.total.wf() && self.free.wf()
    }

    /// The amount in use: the total minus the free amount.
    pub fn used(&self) -> (r: Dec)
        requires
            self.wf(),
            used_in_range(*self),
        ensures
            r == balance_used(self.total, self.free),
            r.wf(),
            dec_le_spec(self.free, self.total) ==> r.num() >= 0,
            difference_fits(self.total, self.free) ==> is_exact_difference(
                r,
                self.total,
                self.free,
            ),
            self.total.scale == self.free.scale && -max_magnitude() <= self.total.num()
                - self.free.num() <= max_magnitude() ==> r.num() == self.total.num()
                - self.free.num() && r.scale == self.total.scale,
    {
        used_of(&self.total, &self.free)
    }
}

/// The difference of a balance's amounts is within what a decimal can hold.
pub open spec fn used_in_range(b: Balance) -> bool {
    -max_magnitude() * b.total.den() * b.free.den() <= b.total.num() * b.free.den() - b.free.num()
        * b.total.den() <= max_magnitude() * b.total.den() * b.free.den()
}

/// Every balance with no negative amount and a free amount at most its total
/// (every balance that `balance_new` accepts) can report the amount in use.
pub proof fn law_valid_balance_has_used(b: Balance)
    requires
        !b.total.negative,
        !b.free.negative,
        dec_le_spec(b.free, b.total),
    ensures
        used_in_range(b),
{
    let tn = b.total.num();
    let fnum = b.free.num();
    let td = b.total.den();
    let fd = b.free.den();
    lemma_pow10_positive(b.total.scale as nat);
    lemma_pow10_positive(b.free.scale as nat);
    assert(tn <= max_magnitude()) by (nonlinear_arith)
        requires
            tn == (b.total.lo as int) + (b.total.mid as int) * 0x1_0000_0000 + (b.total.hi as int)
                * 0x1_0000_0000_0000_0000,
            b.total.lo <= 0xffff_ffff,
            b.total.mid <= 0xffff_ffff,
            b.total.hi <= 0xffff_ffff,
            max_magnitude() == 0xffff_ffff_ffff_ffff_ffff_ffff,
    ;
    assert(0 <= tn * fd - fnum * td <= max_magnitude() * td * fd) by (nonlinear_arith)
        requires
            0 <= tn <= max_magnitude(),
            0 <= fnum,
            td >= 1,
            fd >= 1,
            fnum * td <= tn * fd,
    ;
    assert(-max_magnitude() * td * fd <= 0) by (nonlinear_arith)
        requires
            td >= 1,
            fd >= 1,
            max_magnitude() >= 0,
    ;
}

/// Build a balance from user-given amounts: neither may carry a negative
/// sign, and the free amount may not exceed the total.
pub fn balance_new(total: Dec, free: Dec) -> (r: Result<Balance, BalanceError>)
    requires
        total.wf(),
        free.wf(),
    ensures
        total.negative ==> r == Err::<Balance, BalanceError>(BalanceError::TotalNegative),
        !total.negative && free.negative ==> r == Err::<Balance, BalanceError>(
            BalanceError::FreeNegative,
        ),
        !total.negative && !free.negative && dec_lt_spec(total, free) ==> r == Err::<
            Balance,
            BalanceError,
        >(BalanceError::FreeExceedsTotal),
        !total.negative && !free.negative && !dec_lt_spec(total, free) ==> r == Ok::<
            Balance,
            BalanceError,
        >(Balance { total, free }),
        r == balance_outcome(total, free),
{
    if total.is_sign_negative() {
        return Err(BalanceError::TotalNegative);
    }
    if free.is_sign_negative() {
        return Err(BalanceError::FreeNegative);
    }
    if dec_lt(&total, &free) {
        return Err(BalanceError::FreeExceedsTotal);
    }
    Ok(Balance { total, free })
}

/// The exchange label as looked up: trimmed of surrounding whitespace and ASCII-lowered.
pub open spec fn exchange_label(raw: Seq<char>) -> Seq<char> {
    lower(trim(raw))
}

/// Resolve the exchange label of the initial balance entry at position `index`.
pub fn parse_exchange_identifier(index: usize, raw: &str) -> (r: Result<Exchange, InitialBalanceError>)
    ensures
        trim(raw@).len() == 0 ==> (r matches Err(InitialBalanceError::EmptyExchange { index: i })
            && i == index),
        trim(raw@).len() > 0 ==> match exchange_of_quoted(exchange_label(raw@)) {
            Some(e) => r matches Ok(x) && x == e,
            None => r matches Err(InitialBalanceError::UnknownExchange { index: i, raw: t })
                && i == index && t@ == raw@,
        },
{
    let chars = chars_of(raw);
    let (a, b) = trim_bounds(&chars);
    if a == b {
        return Err(InitialBalanceError::EmptyExchange { index });
    }
    let label = lower_range(&chars, a, b);
    match exchange_from_quoted(&label) {
        Some(exchange) => Ok(exchange),
        None => Err(InitialBalanceError::UnknownExchange { index, raw: String::from_str(raw) }),
    }
}

/// The balance of the initial balance entry at position `index`: the free
/// amount defaults to the total and may not exceed it.
pub fn initial_balance(index: usize, total: Dec, free: Option<Dec>) -> (r: Result<
    Balance,
    InitialBalanceError,
>)
    requires
        total.wf(),
        free matches Some(f) ==> f.wf(),
    ensures
        ({
            let f = match free {
                Some(f) => f,
                None => total,
            };
            &&& dec_lt_spec(total, f) ==> (r matches Err(
                InitialBalanceError::FreeExceedsTotal { index: i },
            ) && i == index)
            &&& !dec_lt_spec(total, f) ==> (r matches Ok(b) && b == Balance { total, free: f })
        }),
{
    let f = match free {
        Some(f) => f,
        None => total,
    };
    if dec_lt(&total, &f) {
        return Err(InitialBalanceError::FreeExceedsTotal { index });
    }
    Ok(Balance { total, free: f })
}

} // verus!
