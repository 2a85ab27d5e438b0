//! Validation of the price, quantity and notional specifications of an instrument.
use vstd::prelude::*;

use crate::decimal::{AmountError, AmountInput, Dec, amount_value, is_amount_error, resolve_amount};

verus! {

/// Why an instrument specification is refused.
#[derive(Clone, Copy, Debug, PartialEq, Eq)]
pub enum SpecError {
    /// The named value carries a negative sign.
    Negative { field: &'static str },
    /// The named value does not carry a positive sign.
    NotPositive { field: &'static str },
}

/// Price constraints of an instrument: minimum price and tick size.
#[derive(Clone, Copy, Debug, PartialEq, Eq)]
pub struct InstrumentSpecPrice {
    pub min: Dec,
    pub tick_size: Dec,
}

/// Notional constraint of an instrument: minimum notional value.
#[derive(Clone, Copy, Debug, PartialEq, Eq)]
pub struct InstrumentSpecNotional {
    pub min: Dec,
}

impl InstrumentSpecPrice {
    /// The minimum may not carry a negative sign, and the tick size must carry a positive sign.
    pub fn new(min: Dec, tick_size: Dec) -> (r: Result<InstrumentSpecPrice, SpecError>)
        ensures
            min.negative ==> r == Err::<InstrumentSpecPrice, SpecError>(
                SpecError::Negative { field: "min" },
            ),
            !min.negative && tick_size.negative ==> r == Err::<InstrumentSpecPrice, SpecError>(
                SpecError::NotPositive { field: "tick_size" },
            ),
            !min.negative && !tick_size.negative ==> r == Ok::<InstrumentSpecPrice, SpecError>(
                InstrumentSpecPrice { min, tick_size },
            ),
    {
        if min.is_sign_negative() {
            return Err(SpecError::Negative { field: "min" });
        }
        if !tick_size.is_sign_positive() {
            return Err(SpecError::NotPositive { field: "tick_size" });
        }
        Ok(InstrumentSpecPrice { min, tick_size })
    }
}

/// The quantity constraints of an instrument: the minimum may not carry a
/// negative sign, and the increment must carry a positive sign.
pub fn check_spec_quantity(min: &Dec, increment: &Dec) -> (r: Result<(), SpecError>)
    ensures
        min.negative ==> r == Err::<(), SpecError>(SpecError::Negative { field: "min" }),
        !min.negative && increment.negative ==> r == Err::<(), SpecError>(
            SpecError::NotPositive { field: "increment" },
        ),
        !min.negative && !increment.negative ==> r is Ok,
{
    if min.is_sign_negative() {
        return Err(SpecError::Negative { field: "min" });
    }
    if !increment.is_sign_positive() {
        return Err(SpecError::NotPositive { field: "increment" });
    }
    Ok(())
}

impl InstrumentSpecNotional {
    /// The minimum notional must carry a positive sign.
    pub fn new(min: Dec) -> (r: Result<InstrumentSpecNotional, SpecError>)
        ensures
            min.negative ==> r == Err::<InstrumentSpecNotional, SpecError>(
                SpecError::NotPositive { field: "min" },
            ),
            !min.negative ==> r == Ok::<InstrumentSpecNotional, SpecError>(
                InstrumentSpecNotional { min },
            ),
    {
        if !min.is_sign_positive() {
            return Err(SpecError::NotPositive { field: "min" });
        }
        Ok(InstrumentSpecNotional { min })
    }
}

/// Why an instrument specification given as read amounts is refused.
#[derive(Clone, Debug, PartialEq, Eq)]
pub enum SpecInputError {
    /// An amount cannot be read.
    Amount(AmountError),
    /// A value is refused.
    Spec(SpecError),
}

/// A minimum and a step read in turn: the minimum, which may not carry a
/// negative sign, then the step, which must carry a positive sign. Errors name
/// the minimum `min` and the step by `step_label`.
fn min_and_step(min: AmountInput, step: AmountInput, step_label: &'static str) -> (r: Result<
    (Dec, Dec),
    SpecInputError,
>)
    requires
        min matches AmountInput::Finite(d) ==> d.wf(),
        step matches AmountInput::Finite(d) ==> d.wf(),
    ensures
        min_and_step_outcome(r, min, step, step_label),
{
    let m = match resolve_amount(min, "min") {
        Ok(m) => m,
        Err(e) => return Err(SpecInputError::Amount(e)),
    };
    if m.is_sign_negative() {
        return Err(SpecInputError::Spec(SpecError::Negative { field: "min" }));
    }
    let t = match resolve_amount(step, step_label) {
        Ok(t) => t,
        Err(e) => return Err(SpecInputError::Amount(e)),
    };
    if !t.is_sign_positive() {
        return Err(SpecInputError::Spec(SpecError::NotPositive { field: step_label }));
    }
    Ok((m, t))
}

/// What reading a minimum and a step in turn gives.
pub open spec fn min_and_step_outcome(
    r: Result<(Dec, Dec), SpecInputError>,
    min: AmountInput,
    step: AmountInput,
    step_label: &'static str,
) -> bool {
    match amount_value(min) {
        Err(_) => r matches Err(SpecInputError::Amount(e)) && is_amount_error(
            e,
            amount_value(min),
            "min",
        ),
        Ok(m) => if m.negative {
            r == Err::<(Dec, Dec), SpecInputError>(
                SpecInputError::Spec(SpecError::Negative { field: "min" }),
            )
        } else {
            match amount_value(step) {
                Err(_) => r matches Err(SpecInputError::Amount(e)) && is_amount_error(
                    e,
                    amount_value(step),
                    step_label,
                ),
                Ok(t) => if t.negative {
                    r == Err::<(Dec, Dec), SpecInputError>(
                        SpecInputError::Spec(SpecError::NotPositive { field: step_label }),
                    )
                } else {
                    r == Ok::<(Dec, Dec), SpecInputError>((m, t))
                },
            }
        },
    }
}

impl InstrumentSpecPrice {
    /// The price specification from its amounts as read: the minimum, then
    /// the tick size, each checked as soon as it is read.
    pub fn from_inputs(min: AmountInput, tick_size: AmountInput) -> (r: Result<
        InstrumentSpecPrice,
        SpecInputError,
    >)
        requires
            min matches AmountInput::Finite(d) ==> d.wf(),
            tick_size matches AmountInput::Finite(d) ==> d.wf(),
        ensures
            min_and_step_outcome(
                match r {
                    Ok(p) => Ok((p.min, p.tick_size)),
                    Err(e) => Err(e),
                },
                min,
                tick_size,
                "tick_size",
            ),
    {
        match min_and_step(min, tick_size, "tick_size") {
            Ok((m, t)) => Ok(InstrumentSpecPrice { min: m, tick_size: t }),
            Err(e) => Err(e),
        }
    }
}

/// The quantity constraints from their amounts as read: the minimum, then the
/// increment, each checked as soon as it is read.
pub fn spec_quantity_from_inputs(min: AmountInput, increment: AmountInput) -> (r: Result<
    (Dec, Dec),
    SpecInputError,
>)
    requires
        min matches AmountInput::Finite(d) ==> d.wf(),
        increment matches AmountInput::Finite(d) ==> d.wf(),
    ensures
        min_and_step_outcome(r, min, increment, "increment"),
{
    min_and_step(min, increment, "increment")
}

impl InstrumentSpecNotional {
    /// The notional specification from its minimum as read, which must carry
    /// a positive sign.
    pub fn from_input(min: AmountInput) -> (r: Result<InstrumentSpecNotional, SpecInputError>)
        requires
            min matches AmountInput::Finite(d) ==> d.wf(),
        ensures
            match amount_value(min) {
                Err(_) => r matches Err(SpecInputError::Amount(e)) && is_amount_error(
                    e,
                    amount_value(min),
                    "min",
                ),
                Ok(m) => if m.negative {
                    r == Err::<InstrumentSpecNotional, SpecInputError>(
                        SpecInputError::Spec(SpecError::NotPositive { field: "min" }),
                    )
                } else {
                    r == Ok::<InstrumentSpecNotional, SpecInputError>(
                        InstrumentSpecNotional { min: m },
                    )
                },
            },
    {
        let m = match resolve_amount(min, "min") {
            Ok(m) => m,
            Err(e) => return Err(SpecInputError::Amount(e)),
        };
        match InstrumentSpecNotional::new(m) {
            Ok(n) => Ok(n),
            Err(e) => Err(SpecInputError::Spec(e)),
        }
    }
}

} // verus!
