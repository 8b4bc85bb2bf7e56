//! Sums of the figures of deposits and of banks.
//!
//! A sum is all or nothing: every entity must bring its complete figures, and
//! the first one that does not ends the sum with an error.

use crate::cal_types::{Bank, Deposit, Outcome, OutcomeView};
use crate::cal_types::outcome_view;
use crate::decimal::{
    checked_add, checked_sum, sum_is_exact, Decimal, DecimalValue, MAX_SCALE,
};
use crate::decimal_laws::lemma_checked_sum_units;
use vstd::prelude::*;

verus! {

/// Why a sum could not be formed.
#[derive(Debug, Clone, Copy, PartialEq, Eq, Structural)]
pub enum AccumulatorError {
    MissingOutcome,
    MissingDelta,
    MissingMaturity,
    /// A running sum is out of range.
    Overflow,
}

impl Default for AccumulatorError {
    fn default() -> (e: AccumulatorError)
        ensures
            e == AccumulatorError::MissingOutcome,
    {
        AccumulatorError::MissingOutcome
    }
}

/// Running sums of growth, principal, interest and total.
#[derive(Debug)]
pub struct Accumulator {
    pub growth: Decimal,
    pub amount: Decimal,
    pub interest: Decimal,
    pub total: Decimal,
}

pub struct AccumulatorView {
    pub growth: DecimalValue,
    pub amount: DecimalValue,
    pub interest: DecimalValue,
    pub total: DecimalValue,
}

impl View for Accumulator {
    type V = AccumulatorView;

    open spec fn view(&self) -> AccumulatorView {
        AccumulatorView {
            growth: self.growth@,
            amount: self.amount@,
            interest: self.interest@,
            total: self.total@,
        }
    }
}

impl AccumulatorView {
    /// The sums of nothing: four zeros.
    pub open spec fn zero() -> AccumulatorView {
        AccumulatorView {
            growth: DecimalValue::zero(),
            amount: DecimalValue::zero(),
            interest: DecimalValue::zero(),
            total: DecimalValue::zero(),
        }
    }
}

impl Default for Accumulator {
    fn default() -> (acc: Accumulator)
        ensures
            acc@ == AccumulatorView::zero(),
    {
        Accumulator {
            growth: Decimal::zero(),
            amount: Decimal::zero(),
            interest: Decimal::zero(),
            total: Decimal::zero(),
        }
    }
}

/// The running sums with the figures of one more outcome added. The outcome
/// must be there, with its maturity and its delta, asked for in this order;
/// then each of the four sums must be in range.
pub open spec fn add_figures(acc: AccumulatorView, outcome: Option<OutcomeView>) -> Result<
    AccumulatorView,
    AccumulatorError,
> {
    if outcome is None {
        Err(AccumulatorError::MissingOutcome)
    } else if outcome->0.maturity is None {
        Err(AccumulatorError::MissingMaturity)
    } else if outcome->0.delta is None {
        Err(AccumulatorError::MissingDelta)
    } else {
        let delta = outcome->0.delta->0;
        let maturity = outcome->0.maturity->0;
        let growth = checked_sum(acc.growth, delta.growth);
        let amount = checked_sum(acc.amount, maturity.amount);
        let interest = checked_sum(acc.interest, maturity.interest);
        let total = checked_sum(acc.total, maturity.total);
        if growth is Some && amount is Some && interest is Some && total is Some {
            Ok(
                AccumulatorView {
                    growth: growth->0,
                    amount: amount->0,
                    interest: interest->0,
                    total: total->0,
                },
            )
        } else {
            Err(AccumulatorError::Overflow)
        }
    }
}

/// The sums over a sequence of outcomes, taken from the first to the last,
/// starting from zero; the error of the first outcome that cannot be added.
pub open spec fn accumulate(outcomes: Seq<Option<OutcomeView>>) -> Result<
    AccumulatorView,
    AccumulatorError,
>
    decreases outcomes.len(),
{
    if outcomes.len() == 0 {
        Ok(AccumulatorView::zero())
    } else {
        match accumulate(outcomes.drop_last()) {
            Ok(acc) => add_figures(acc, outcomes.last()),
            Err(e) => Err(e),
        }
    }
}

/// The outcomes of a sequence of deposits.
pub open spec fn deposit_outcomes(deposits: Seq<Deposit>) -> Seq<Option<OutcomeView>> {
    deposits.map_values(|d: Deposit| outcome_view(d.outcome))
}

/// The outcomes of a sequence of banks.
pub open spec fn bank_outcomes(banks: Seq<Bank>) -> Seq<Option<OutcomeView>> {
    banks.map_values(|b: Bank| outcome_view(b.outcome))
}

/// The view of the result of a sum.
pub open spec fn accumulated(r: Result<Accumulator, AccumulatorError>) -> Result<
    AccumulatorView,
    AccumulatorError,
> {
    match r {
        Ok(acc) => Ok(acc@),
        Err(e) => Err(e),
    }
}

/// An error within the first `n` outcomes is the error of the whole sequence.
pub proof fn lemma_error_stays(outcomes: Seq<Option<OutcomeView>>, n: int)
    requires
        0 <= n <= outcomes.len(),
        accumulate(outcomes.take(n)) is Err,
    ensures
        accumulate(outcomes) == accumulate(outcomes.take(n)),
    decreases outcomes.len(),
{
    if n == outcomes.len() {
        assert(outcomes.take(n) =~= outcomes);
    } else {
        assert(outcomes.drop_last().take(n) =~= outcomes.take(n));
        lemma_error_stays(outcomes.drop_last(), n);
    }
}

/// Whether an outcome has both its figures.
pub open spec fn is_complete(outcome: Option<OutcomeView>) -> bool {
    outcome matches Some(o) && o.delta is Some && o.maturity is Some
}

/// Whether two numbers are added without rounding: one of them is zero, or
/// both and their sum fit at the larger of their scales.
pub open spec fn adds_exactly(a: DecimalValue, b: DecimalValue) -> bool {
    &&& a.scale <= MAX_SCALE
    &&& b.scale <= MAX_SCALE
    &&& a.mantissa == 0 || b.mantissa == 0 || sum_is_exact(a, b)
}

/// Whether the figures of an outcome are added to running sums without
/// rounding.
pub open spec fn adds_figures_exactly(acc: AccumulatorView, outcome: OutcomeView) -> bool {
    &&& outcome.delta is Some
    &&& outcome.maturity is Some
    &&& adds_exactly(acc.growth, outcome.delta->0.growth)
    &&& adds_exactly(acc.amount, outcome.maturity->0.amount)
    &&& adds_exactly(acc.interest, outcome.maturity->0.interest)
    &&& adds_exactly(acc.total, outcome.maturity->0.total)
}

/// Whether a sequence of outcomes is summed without rounding at any step.
pub open spec fn sums_exactly(outcomes: Seq<Option<OutcomeView>>) -> bool
    decreases outcomes.len(),
{
    outcomes.len() == 0 || (sums_exactly(outcomes.drop_last()) && accumulate(
        outcomes.drop_last(),
    ) is Ok && outcomes.last() is Some && adds_figures_exactly(
        accumulate(outcomes.drop_last())->Ok_0,
        outcomes.last()->0,
    ))
}

/// The figures of complete outcomes, counted in units of `10^-28` and added
/// up as whole numbers.
pub open spec fn units_of(outcomes: Seq<Option<OutcomeView>>) -> (int, int, int, int)
    decreases outcomes.len(),
{
    if outcomes.len() == 0 {
        (0, 0, 0, 0)
    } else {
        let rest = units_of(outcomes.drop_last());
        let last = outcomes.last()->0;
        (
            rest.0 + last.delta->0.growth.units(),
            rest.1 + last.maturity->0.amount.units(),
            rest.2 + last.maturity->0.interest.units(),
            rest.3 + last.maturity->0.total.units(),
        )
    }
}

/// Sums are exact: where no step rounds, the sums of growth, principal,
/// interest and total are the figures added up, to the last decimal place.
pub proof fn lemma_sums_are_exact(outcomes: Seq<Option<OutcomeView>>)
    requires
        sums_exactly(outcomes),
    ensures
        accumulate(outcomes) matches Ok(sums) && units_of(outcomes) == (
            sums.growth.units(),
            sums.amount.units(),
            sums.interest.units(),
            sums.total.units(),
        ),
    decreases outcomes.len(),
{
    if outcomes.len() == 0 {
        let zero = DecimalValue::zero();
        assert(zero.units() == 0) by (nonlinear_arith)
            requires
                zero.units() == zero.mantissa * crate::decimal::pow10(
                    (MAX_SCALE - zero.scale) as nat,
                ),
                zero.mantissa == 0,
        ;
    } else {
        lemma_sums_are_exact(outcomes.drop_last());
        let acc = accumulate(outcomes.drop_last())->Ok_0;
        let last = outcomes.last()->0;
        lemma_checked_sum_units(acc.growth, last.delta->0.growth);
        lemma_checked_sum_units(acc.amount, last.maturity->0.amount);
        lemma_checked_sum_units(acc.interest, last.maturity->0.interest);
        lemma_checked_sum_units(acc.total, last.maturity->0.total);
    }
}

/// The sums over two deposits: where the figures of the two are added
/// without rounding, the growth is the growth of the one and the growth of
/// the other, to the last decimal place, and so are principal, interest and
/// total.
pub proof fn lemma_sum_of_two(first: OutcomeView, second: OutcomeView)
    requires
        first.delta is Some,
        first.maturity is Some,
        first.delta->0.growth.scale <= MAX_SCALE,
        first.maturity->0.amount.scale <= MAX_SCALE,
        first.maturity->0.interest.scale <= MAX_SCALE,
        first.maturity->0.total.scale <= MAX_SCALE,
        adds_figures_exactly(
            AccumulatorView {
                growth: first.delta->0.growth,
                amount: first.maturity->0.amount,
                interest: first.maturity->0.interest,
                total: first.maturity->0.total,
            },
            second,
        ),
    ensures
        accumulate(seq![Some(first), Some(second)]) matches Ok(sums) && sums.growth.units()
            == first.delta->0.growth.units() + second.delta->0.growth.units()
            && sums.amount.units() == first.maturity->0.amount.units()
            + second.maturity->0.amount.units() && sums.interest.units()
            == first.maturity->0.interest.units() + second.maturity->0.interest.units()
            && sums.total.units() == first.maturity->0.total.units()
            + second.maturity->0.total.units(),
{
    let both = seq![Some(first), Some(second)];
    let one = seq![Some(first)];
    assert(both.drop_last() =~= one);
    assert(one.drop_last() =~= Seq::<Option<OutcomeView>>::empty());
    assert(sums_exactly(one.drop_last()));
    assert(accumulate(one.drop_last()) == Ok::<AccumulatorView, AccumulatorError>(
        AccumulatorView::zero(),
    ));
    assert(sums_exactly(one));
    assert(sums_exactly(both));
    lemma_sums_are_exact(both);
    lemma_sums_are_exact(one);
    assert(units_of(one.drop_last()) == (0int, 0int, 0int, 0int));
}

/// A sum is strict: the first deposit without an outcome ends it with the
/// error that says so, whatever follows. It never counts as zero.
pub proof fn lemma_missing_outcome(outcomes: Seq<Option<OutcomeView>>, i: int)
    requires
        0 <= i < outcomes.len(),
        outcomes[i] is None,
        accumulate(outcomes.take(i)) is Ok,
    ensures
        accumulate(outcomes) == Err::<AccumulatorView, AccumulatorError>(
            AccumulatorError::MissingOutcome,
        ),
{
    let upto = outcomes.take(i + 1);
    assert(upto.drop_last() =~= outcomes.take(i));
    assert(upto.last() == outcomes[i]);
    lemma_error_stays(outcomes, i + 1);
}

/// A sequence in which a deposit lacks its outcome, its delta or its maturity
/// has no sum.
pub proof fn lemma_incomplete_has_no_sum(outcomes: Seq<Option<OutcomeView>>, i: int)
    requires
        0 <= i < outcomes.len(),
        !is_complete(outcomes[i]),
    ensures
        accumulate(outcomes) is Err,
{
    let upto = outcomes.take(i + 1);
    assert(upto.drop_last() =~= outcomes.take(i));
    assert(upto.last() == outcomes[i]);
    lemma_error_stays(outcomes, i + 1);
}

/// Adds the figures of one outcome to the running sums.
fn add_outcome(acc: Accumulator, outcome: &Option<Outcome>) -> (r: Result<
    Accumulator,
    AccumulatorError,
>)
    ensures
        accumulated(r) == add_figures(acc@, outcome_view(*outcome)),
{
    let outcome = match outcome {
        Some(outcome) => outcome,
        None => {
            return Err(AccumulatorError::MissingOutcome);
        },
    };
    let maturity = match &outcome.maturity {
        Some(maturity) => maturity,
        None => {
            return Err(AccumulatorError::MissingMaturity);
        },
    };
    let delta = match &outcome.delta {
        Some(delta) => delta,
        None => {
            return Err(AccumulatorError::MissingDelta);
        },
    };
    let growth = checked_add(acc.growth, delta.growth);
    let amount = checked_add(acc.amount, maturity.amount);
    let interest = checked_add(acc.interest, maturity.interest);
    let total = checked_add(acc.total, maturity.total);
    match (growth, amount, interest, total) {
        (Some(growth), Some(amount), Some(interest), Some(total)) => Ok(
            Accumulator { growth, amount, interest, total },
        ),
        _ => Err(AccumulatorError::Overflow),
    }
}

/// Sums the figures of deposits. Every deposit must have an outcome with a
/// maturity and a delta; the first that has not ends the sum with the error
/// that names what is missing, and so does the first sum that is out of range.
/// No deposits sum to zero.
pub fn accumulate_deposits(deposits: &[Deposit]) -> (r: Result<Accumulator, AccumulatorError>)
    ensures
        accumulated(r) == accumulate(deposit_outcomes(deposits@)),
{
    let ghost outcomes = deposit_outcomes(deposits@);
    let mut acc = Accumulator::default();
    let mut i: usize = 0;
    proof {
        assert(outcomes.take(0) =~= Seq::empty());
    }
    while i < deposits.len()
        invariant
            0 <= i <= deposits.len(),
            outcomes == deposit_outcomes(deposits@),
            accumulate(outcomes.take(i as int)) == Ok::<AccumulatorView, AccumulatorError>(acc@),
        decreases deposits.len() - i,
    {
        proof {
            assert(outcomes.take(i + 1).drop_last() =~= outcomes.take(i as int));
            assert(outcomes.take(i + 1).last() == outcome_view(deposits@[i as int].outcome));
        }
        match add_outcome(acc, &deposits[i].outcome) {
            Ok(next) => {
                acc = next;
            },
            Err(e) => {
                proof {
                    lemma_error_stays(outcomes, i + 1);
                }
                return Err(e);
            },
        }
        i += 1;
    }
    proof {
        assert(outcomes.take(i as int) =~= outcomes);
    }
    Ok(acc)
}

/// Sums the figures of banks, as [`accumulate_deposits`] sums those of
/// deposits.
pub fn accumulate_banks(banks: &[Bank]) -> (r: Result<Accumulator, AccumulatorError>)
    ensures
        accumulated(r) == accumulate(bank_outcomes(banks@)),
{
    let ghost outcomes = bank_outcomes(banks@);
    let mut acc = Accumulator::default();
    let mut i: usize = 0;
    proof {
        assert(outcomes.take(0) =~= Seq::empty());
    }
    while i < banks.len()
        invariant
            0 <= i <= banks.len(),
            outcomes == bank_outcomes(banks@),
            accumulate(outcomes.take(i as int)) == Ok::<AccumulatorView, AccumulatorError>(acc@),
        decreases banks.len() - i,
    {
        proof {
            assert(outcomes.take(i + 1).drop_last() =~= outcomes.take(i as int));
            assert(outcomes.take(i + 1).last() == outcome_view(banks@[i as int].outcome));
        }
        match add_outcome(acc, &banks[i].outcome) {
            Ok(next) => {
                acc = next;
            },
            Err(e) => {
                proof {
                    lemma_error_stays(outcomes, i + 1);
                }
                return Err(e);
            },
        }
        i += 1;
    }
    proof {
        assert(outcomes.take(i as int) =~= outcomes);
    }
    Ok(acc)
}

} // verus!
