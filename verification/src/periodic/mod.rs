//! Periodic cash flows: kernel selection, validation and the decisions of the
//! rate searches.

pub mod canonical;
pub mod irr;
pub mod npv;
pub mod powers;

use std::ops::Range;
use vstd::prelude::*;

use crate::models::{has_inflow, has_outflow, validate, InvalidPaymentsError, Sign};
use crate::utils::{is_nonzero_span, non_zero_range};

verus! {

/// A step of the internal-rate-of-return search.
#[derive(Clone, Copy, Debug, PartialEq, Eq, Structural)]
pub enum IrrStep {
    /// Two amounts: the closed-form solution of a linear equation.
    TwoAmounts,
    /// Three amounts: the closed-form solution of a quadratic, the guess
    /// picking between two solutions.
    ThreeAmounts,
    /// A few Newton steps from the caller's guess, accepted only on
    /// convergence.
    WarmStart,
    /// Brent's method on rates from 0 to 10000%.
    PositiveBracket,
    /// Newton's method from a seed, accepted when near a root.
    Newton,
    /// Brent's method on rates from -99.9% to 10000%.
    WideBracket,
    /// The last resort: Brent's method over a grid of brackets across the
    /// whole range.
    GridSearch,
}

/// The first step for a flow of `len` amounts after its zeros at either end
/// were dropped.
pub open spec fn spec_irr_first_step(len: nat, has_guess: bool) -> IrrStep {
    if len == 2 {
        IrrStep::TwoAmounts
    } else if len == 3 {
        IrrStep::ThreeAmounts
    } else if has_guess {
        IrrStep::WarmStart
    } else {
        IrrStep::PositiveBracket
    }
}

/// The step after `step` when it did not find a rate; `None` when `step` is
/// the last one its flow can take.
pub open spec fn spec_irr_fallback(step: IrrStep) -> Option<IrrStep> {
    match step {
        IrrStep::WarmStart => Some(IrrStep::PositiveBracket),
        IrrStep::PositiveBracket => Some(IrrStep::Newton),
        IrrStep::Newton => Some(IrrStep::WideBracket),
        IrrStep::WideBracket => Some(IrrStep::GridSearch),
        _ => None,
    }
}

/// Dropping the zeros at either end of a flow keeps every amount below and
/// above zero, so the flow and its trimmed span pass or fail validation alike.
pub proof fn lemma_trimming_keeps_both_ways(signs: Seq<Sign>, start: int, end: int)
    requires
        is_nonzero_span(signs, start, end),
    ensures
        has_outflow(signs.subrange(start, end)) == has_outflow(signs),
        has_inflow(signs.subrange(start, end)) == has_inflow(signs),
{
    let trimmed = signs.subrange(start, end);
    if has_outflow(signs) {
        let i = choose|i: int| 0 <= i < signs.len() && #[trigger] signs[i].is_below_zero();
        assert(trimmed[i - start].is_below_zero());
    }
    if has_inflow(signs) {
        let i = choose|i: int| 0 <= i < signs.len() && #[trigger] signs[i].is_above_zero();
        assert(trimmed[i - start].is_above_zero());
    }
    if has_outflow(trimmed) {
        let i = choose|i: int| 0 <= i < trimmed.len() && #[trigger] trimmed[i].is_below_zero();
        assert(signs[i + start].is_below_zero());
    }
    if has_inflow(trimmed) {
        let i = choose|i: int| 0 <= i < trimmed.len() && #[trigger] trimmed[i].is_above_zero();
        assert(signs[i + start].is_above_zero());
    }
}

/// How an internal-rate-of-return search begins.
#[derive(Debug)]
pub struct IrrStart {
    /// The amounts the search runs on: the flow without its zeros at either end.
    pub span: Range<usize>,
    /// The first step.
    pub first: IrrStep,
}

/// How the search for the internal rate of return of a flow begins: it drops
/// the zeros at either end of the flow, refuses a flow without money going
/// both ways, and solves two or three amounts in closed form. Longer flows
/// start from the caller's guess if there is one, else with the bracket on
/// positive rates.
pub fn irr_start(signs: &[Sign], has_guess: bool) -> (res: Result<IrrStart, InvalidPaymentsError>)
    ensures
        res is Ok <==> has_outflow(signs@) && has_inflow(signs@),
        res is Err ==> res == Err::<IrrStart, InvalidPaymentsError>(InvalidPaymentsError::OneSign),
        res matches Ok(start) ==> {
            &&& is_nonzero_span(signs@, start.span.start as int, start.span.end as int)
            &&& has_outflow(signs@.subrange(start.span.start as int, start.span.end as int))
            &&& has_inflow(signs@.subrange(start.span.start as int, start.span.end as int))
            &&& start.first == spec_irr_first_step((start.span.end - start.span.start) as nat, has_guess)
            &&& start.span.end - start.span.start >= 2
            &&& (start.first == IrrStep::TwoAmounts <==> start.span.end - start.span.start == 2)
            &&& (start.first == IrrStep::ThreeAmounts <==> start.span.end - start.span.start == 3)
        },
{
    let span = non_zero_range(signs);
    // Trimming drops zeros only, so the whole flow and its span hold the same
    // amounts below and above zero.
    validate(signs)?;
    proof {
        lemma_trimming_keeps_both_ways(signs@, span.start as int, span.end as int);
        let trimmed = signs@.subrange(span.start as int, span.end as int);
        let i = choose|i: int| 0 <= i < trimmed.len() && #[trigger] trimmed[i].is_below_zero();
        let j = choose|j: int| 0 <= j < trimmed.len() && #[trigger] trimmed[j].is_above_zero();
        assert(i != j);
    }
    let len = span.end - span.start;
    let first = if len == 2 {
        IrrStep::TwoAmounts
    } else if len == 3 {
        IrrStep::ThreeAmounts
    } else if has_guess {
        IrrStep::WarmStart
    } else {
        IrrStep::PositiveBracket
    };
    Ok(IrrStart { span, first })
}

/// What the search does after a step.
#[derive(Clone, Copy, Debug, PartialEq, Eq, Structural)]
pub enum IrrOutcome {
    /// Report the rate the step found.
    Report,
    /// Run this step next.
    Next(IrrStep),
    /// The calculation failed: no rate was found, which is an error.
    NoRate,
}

/// What the search does after a step, by the spec below.
pub open spec fn spec_irr_next_step(step: IrrStep, found: bool) -> IrrOutcome {
    if found {
        IrrOutcome::Report
    } else {
        match spec_irr_fallback(step) {
            Some(next) => IrrOutcome::Next(next),
            None => IrrOutcome::NoRate,
        }
    }
}

/// What the search does after `step` ran; `found` is whether the step found a
/// rate it accepts (a finite rate, and one within its tolerance of a root for
/// the Newton steps). A found rate is reported. Otherwise the search falls back
/// in a fixed order: from the warm start to the positive bracket, then to
/// Newton's method, then to the wide bracket, then to the grid; a closed form
/// or the grid that finds no rate ends the search with an error.
pub fn irr_next_step(step: IrrStep, found: bool) -> (outcome: IrrOutcome)
    ensures
        outcome == spec_irr_next_step(step, found),
{
    if found {
        return IrrOutcome::Report;
    }
    match step {
        IrrStep::WarmStart => IrrOutcome::Next(IrrStep::PositiveBracket),
        IrrStep::PositiveBracket => IrrOutcome::Next(IrrStep::Newton),
        IrrStep::Newton => IrrOutcome::Next(IrrStep::WideBracket),
        IrrStep::WideBracket => IrrOutcome::Next(IrrStep::GridSearch),
        _ => IrrOutcome::NoRate,
    }
}

/// How many steps at most follow `step`.
pub open spec fn irr_steps_left(step: IrrStep) -> nat {
    match step {
        IrrStep::WarmStart => 4,
        IrrStep::PositiveBracket => 3,
        IrrStep::Newton => 2,
        IrrStep::WideBracket => 1,
        _ => 0,
    }
}

/// The search always ends, with a rate or with an error: every step it falls
/// back to has fewer steps left than the one it replaces, so no step runs
/// twice and a search runs at most five steps; and a step with none left
/// either reports the rate it found or fails.
pub proof fn lemma_irr_search_ends(step: IrrStep, found: bool)
    ensures
        irr_steps_left(step) <= 4,
        spec_irr_next_step(step, found) matches IrrOutcome::Next(next) ==> irr_steps_left(next)
            < irr_steps_left(step),
        irr_steps_left(step) == 0 ==> spec_irr_next_step(step, found) == (if found {
            IrrOutcome::Report
        } else {
            IrrOutcome::NoRate
        }),
{
}

/// A search that finds no rate fails: no outcome reports anything but a rate
/// a step found.
pub proof fn lemma_irr_reports_only_found_rates(step: IrrStep, found: bool)
    ensures
        spec_irr_next_step(step, found) == IrrOutcome::Report <==> found,
{
}

/// The search starts in closed form exactly for spans of two and three
/// amounts; a span of four or more starts from the caller's guess when there
/// is one and with the bracket on positive rates otherwise.
pub proof fn lemma_closed_form_only_for_two_or_three(len: nat, has_guess: bool)
    ensures
        spec_irr_first_step(len, has_guess) == IrrStep::TwoAmounts <==> len == 2,
        spec_irr_first_step(len, has_guess) == IrrStep::ThreeAmounts <==> len == 3,
        len >= 4 ==> (spec_irr_first_step(len, has_guess) == IrrStep::WarmStart <==> has_guess),
        len >= 4 ==> (spec_irr_first_step(len, has_guess) == IrrStep::PositiveBracket <==> !has_guess),
        spec_irr_first_step(len, has_guess) != IrrStep::Newton,
        spec_irr_first_step(len, has_guess) != IrrStep::WideBracket,
        spec_irr_first_step(len, has_guess) != IrrStep::GridSearch,
{
}

/// The order of the fallbacks: a step that found no rate hands over to the
/// positive bracket after the warm start, to Newton's method after that
/// bracket, to the wide bracket after Newton's method and to the grid after
/// the wide bracket; a closed form or the grid that found none fails, and no
/// step ever falls back to a closed form, the warm start or itself.
pub proof fn lemma_irr_fallback_order(step: IrrStep)
    ensures
        step == IrrStep::WarmStart ==> spec_irr_next_step(step, false) == IrrOutcome::Next(IrrStep::PositiveBracket),
        step == IrrStep::PositiveBracket ==> spec_irr_next_step(step, false) == IrrOutcome::Next(IrrStep::Newton),
        step == IrrStep::Newton ==> spec_irr_next_step(step, false) == IrrOutcome::Next(IrrStep::WideBracket),
        step == IrrStep::WideBracket ==> spec_irr_next_step(step, false) == IrrOutcome::Next(IrrStep::GridSearch),
        step == IrrStep::TwoAmounts || step == IrrStep::ThreeAmounts || step == IrrStep::GridSearch
            ==> spec_irr_next_step(step, false) == IrrOutcome::NoRate,
        spec_irr_next_step(step, false) matches IrrOutcome::Next(next) ==> next != step && next
            != IrrStep::TwoAmounts && next != IrrStep::ThreeAmounts && next != IrrStep::WarmStart,
        spec_irr_next_step(step, true) == IrrOutcome::Report,
{
}

/// Where Newton's method starts.
#[derive(Clone, Copy, Debug, PartialEq, Eq, Structural)]
pub enum NewtonSeed {
    /// The caller's guess.
    Guess,
    /// A seed derived from the flow's outflows and inflows.
    FromFlow,
    /// 10%.
    Flat,
}

/// Where Newton's method starts: at the caller's guess if there is one; else,
/// when the amounts sum below zero (so the present value at a zero rate is
/// negative and the root lies below zero), at a seed derived from the flow;
/// else at 10%.
pub fn newton_seed(has_guess: bool, sum_below_zero: bool) -> (seed: NewtonSeed)
    ensures
        seed == NewtonSeed::Guess <==> has_guess,
        seed == NewtonSeed::FromFlow <==> !has_guess && sum_below_zero,
        seed == (if has_guess {
            NewtonSeed::Guess
        } else if sum_below_zero {
            NewtonSeed::FromFlow
        } else {
            NewtonSeed::Flat
        }),
{
    if has_guess {
        NewtonSeed::Guess
    } else if sum_below_zero {
        NewtonSeed::FromFlow
    } else {
        NewtonSeed::Flat
    }
}

} // verus!
