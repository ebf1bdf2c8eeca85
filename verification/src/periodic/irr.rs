//! The closed-form rate of a flow of three amounts: which solution of the
//! quadratic it reports.

use vstd::prelude::*;

verus! {

/// Where a number lies against a reference value. The comparison is total:
/// it orders `NaN` too, as the total order of floating-point numbers does.
#[derive(Clone, Copy, Debug, PartialEq, Eq, Structural)]
pub enum Relation {
    Below,
    Equal,
    Above,
}

/// The shape of `a·x² + b·x + c = 0`, where `x = 1 + r` and `a`, `b`, `c` are
/// the three amounts in order.
#[derive(Clone, Copy, Debug, PartialEq, Eq, Structural)]
pub enum Quadratic {
    /// `a` is zero: the single solution `x = -c/b`.
    Linear,
    /// The discriminant is below zero: no solution, the rate is not a number.
    NoSolution,
    /// The discriminant is zero: the one solution `x = -b/(2a)`.
    OneSolution,
    /// The discriminant is above zero: two solutions to choose from.
    TwoSolutions,
}

/// The shape of the quadratic, from whether its leading amount is zero and
/// where its discriminant lies against zero.
pub fn quadratic(leading_is_zero: bool, discriminant: Relation) -> (shape: Quadratic)
    ensures
        shape == Quadratic::Linear <==> leading_is_zero,
        shape == Quadratic::TwoSolutions <==> !leading_is_zero && discriminant == Relation::Above,
        shape == Quadratic::NoSolution <==> !leading_is_zero && discriminant == Relation::Below,
        shape == (if leading_is_zero {
            Quadratic::Linear
        } else {
            match discriminant {
                Relation::Below => Quadratic::NoSolution,
                Relation::Equal => Quadratic::OneSolution,
                Relation::Above => Quadratic::TwoSolutions,
            }
        }),
{
    if leading_is_zero {
        return Quadratic::Linear;
    }
    match discriminant {
        Relation::Below => Quadratic::NoSolution,
        Relation::Equal => Quadratic::OneSolution,
        Relation::Above => Quadratic::TwoSolutions,
    }
}

/// The rate reported when the quadratic has two solutions `r1` (from `+√d`)
/// and `r2` (from `-√d`).
#[derive(Clone, Copy, Debug, PartialEq, Eq, Structural)]
pub enum RootChoice {
    /// Both lie below -100%: there is no rate.
    NoRate,
    /// Neither lies above -100% and one sits on it: a total loss, -100%.
    TotalLoss,
    /// `r1`.
    First,
    /// `r2`.
    Second,
}

/// Which of two solutions is the rate. `first` and `second` are where `r1` and
/// `r2` lie against -100%; `nearer` is where `r1`'s distance from the guess
/// (10% when the caller gives none) lies against `r2`'s.
///
/// A rate below -100% does not make sense, so a solution there is never
/// chosen. When both solutions are rates, the guess picks the one beside it,
/// the first on a tie: a flow that changes sign twice has two rates that
/// satisfy it, and nothing in the arithmetic prefers one.
pub fn choose_root(first: Relation, second: Relation, nearer: Relation) -> (choice: RootChoice)
    ensures
        choice == (match (first, second) {
            (Relation::Below, Relation::Below) => RootChoice::NoRate,
            (Relation::Above, Relation::Above) => if nearer == Relation::Above {
                RootChoice::Second
            } else {
                RootChoice::First
            },
            (Relation::Above, _) => RootChoice::First,
            (_, Relation::Above) => RootChoice::Second,
            _ => RootChoice::TotalLoss,
        }),
        choice == RootChoice::First ==> first == Relation::Above,
        choice == RootChoice::Second ==> second == Relation::Above,
        first == Relation::Above && second == Relation::Above ==> (choice == RootChoice::First
            <==> nearer != Relation::Above),
        choice == RootChoice::TotalLoss ==> first != Relation::Above && second != Relation::Above
            && (first == Relation::Equal || second == Relation::Equal),
{
    match (first, second) {
        (Relation::Below, Relation::Below) => RootChoice::NoRate,
        (Relation::Above, Relation::Above) => {
            if nearer == Relation::Above {
                RootChoice::Second
            } else {
                RootChoice::First
            }
        },
        (Relation::Above, _) => RootChoice::First,
        (_, Relation::Above) => RootChoice::Second,
        _ => RootChoice::TotalLoss,
    }
}

} // verus!
