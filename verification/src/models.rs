//! How an amount of a cash flow compares with zero, and the check every rate
//! function makes before it searches.

use vstd::prelude::*;

verus! {

/// How an amount compares with zero, which is all that the validation and the
/// sign scans of this library read of it.
#[derive(Clone, Copy, Debug, PartialEq, Eq, Structural)]
pub enum Sign {
    /// Exactly zero (either signed zero).
    Zero,
    /// Finite and below zero.
    Negative,
    /// Finite and above zero.
    Positive,
    /// Negative infinity.
    NegativeInfinity,
    /// Positive infinity.
    PositiveInfinity,
    /// Not a number: it compares false against zero both ways.
    NotANumber,
}

impl Sign {
    /// The amount is not zero (`NaN` included, as `NaN != 0.0`).
    pub open spec fn is_nonzero(self) -> bool {
        self != Sign::Zero
    }

    /// The amount compares below zero.
    pub open spec fn is_below_zero(self) -> bool {
        self == Sign::Negative || self == Sign::NegativeInfinity
    }

    /// The amount compares above zero.
    pub open spec fn is_above_zero(self) -> bool {
        self == Sign::Positive || self == Sign::PositiveInfinity
    }

    /// The amount is a finite number.
    pub open spec fn is_finite(self) -> bool {
        self == Sign::Zero || self == Sign::Negative || self == Sign::Positive
    }
}

/// Why a cash flow was refused.
#[derive(Clone, Copy, Debug, PartialEq, Eq, Structural)]
pub enum InvalidPaymentsError {
    /// The flow holds no amount below zero or none above it.
    OneSign,
    /// Some amount is infinite or not a number.
    NotFinite,
    /// The search found no rate at which the flow breaks even.
    NoRate,
}

impl InvalidPaymentsError {
    /// What was wrong with the flow, in words.
    pub fn message(&self) -> (text: String)
        ensures
            *self == InvalidPaymentsError::OneSign ==> text@ == "negative and positive payments are required"@,
            *self == InvalidPaymentsError::NotFinite ==> text@ == "every amount must be a finite number"@,
            *self == InvalidPaymentsError::NoRate ==> text@ == "no rate was found for these payments"@,
    {
        match self {
            InvalidPaymentsError::OneSign => "negative and positive payments are required".to_owned(),
            InvalidPaymentsError::NotFinite => "every amount must be a finite number".to_owned(),
            InvalidPaymentsError::NoRate => "no rate was found for these payments".to_owned(),
        }
    }
}

/// The flow holds an amount below zero.
pub open spec fn has_outflow(signs: Seq<Sign>) -> bool {
    exists|i: int| 0 <= i < signs.len() && #[trigger] signs[i].is_below_zero()
}

/// The flow holds an amount above zero.
pub open spec fn has_inflow(signs: Seq<Sign>) -> bool {
    exists|i: int| 0 <= i < signs.len() && #[trigger] signs[i].is_above_zero()
}

/// A cash flow has a rate to look for only if money goes both ways: it must
/// hold at least one amount below zero and one above it.
pub fn validate(signs: &[Sign]) -> (res: Result<(), InvalidPaymentsError>)
    ensures
        res is Ok <==> has_outflow(signs@) && has_inflow(signs@),
        res is Err ==> res == Err::<(), InvalidPaymentsError>(InvalidPaymentsError::OneSign),
{
    let mut outflow = false;
    let mut inflow = false;
    let mut i: usize = 0;
    while i < signs.len()
        invariant
            i <= signs.len(),
            outflow <==> exists|j: int| 0 <= j < i && #[trigger] signs@[j].is_below_zero(),
            inflow <==> exists|j: int| 0 <= j < i && #[trigger] signs@[j].is_above_zero(),
        decreases signs.len() - i,
    {
        match signs[i] {
            Sign::Negative | Sign::NegativeInfinity => {
                outflow = true;
            },
            Sign::Positive | Sign::PositiveInfinity => {
                inflow = true;
            },
            _ => {},
        }
        assert(signs@[i as int].is_below_zero() ==> outflow);
        assert(signs@[i as int].is_above_zero() ==> inflow);
        i += 1;
    }
    if outflow && inflow {
        Ok(())
    } else {
        Err(InvalidPaymentsError::OneSign)
    }
}

} // verus!
