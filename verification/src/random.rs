//! The random source of the phrase builder: `StdRng` of the `rand` crate.
//!
//! Verus does not look inside the generator. Each draw is a small function
//! whose contract says only what `rand` promises of every outcome: the
//! bounds of a number, and the two certain cases of a trial. These contracts
//! are believed, not proved. What the builder makes of a draw is decided in
//! verified functions, for every value that the draw can have.

use vstd::prelude::*;
use rand::rngs::StdRng;
use rand::Rng;

verus! {

/// `rand::rngs::StdRng`, the standard generator of `rand`. Nothing is known
/// of its state.
#[verifier::external_type_specification]
#[verifier::external_body]
pub struct ExStdRng(StdRng);

/// A chance as a ratio of whole numbers: `numerator` in `denominator`.
#[derive(Clone, Copy, Debug, PartialEq, Eq, Structural)]
pub struct Probability {
    numerator: u32,
    denominator: u32,
}

/// `Rng::gen` at type `bool`: a fair coin. Nothing is promised of the
/// outcome.
#[verifier::external_body]
pub(crate) fn draw_coin(rng: &mut StdRng) -> bool {
    rng.gen()
}

/// `Rng::gen_ratio`: a trial that succeeds with a chance of `numerator` in
/// `denominator`. A chance of none never succeeds, and a chance of all always
/// does. The ratio must be one: `rand` panics on a zero denominator and on a
/// numerator above the denominator.
#[verifier::external_body]
pub(crate) fn draw_ratio(rng: &mut StdRng, numerator: u32, denominator: u32) -> (hit: bool)
    requires
        0 < denominator,
        numerator <= denominator,
    ensures
        numerator == 0 ==> !hit,
        numerator == denominator ==> hit,
{
    rng.gen_ratio(numerator, denominator)
}

/// `Rng::gen_range` over `low..=high`: a number from `low` up to `high`,
/// both included. The range must not be empty: `rand` panics on one.
#[verifier::external_body]
pub(crate) fn draw_in(rng: &mut StdRng, low: u32, high: u32) -> (value: u32)
    requires
        low <= high,
    ensures
        low <= value <= high,
{
    rng.gen_range(low..=high)
}

impl Probability {
    /// The denominator is not zero and the numerator is not above it.
    #[verifier::type_invariant]
    pub closed spec fn wf(self) -> bool {
        0 < self.denominator && self.numerator <= self.denominator
    }

    /// The numerator of the ratio.
    pub closed spec fn numerator(self) -> u32 {
        self.numerator
    }

    /// The denominator of the ratio.
    pub closed spec fn denominator(self) -> u32 {
        self.denominator
    }

    /// Whether the chance is none.
    pub open spec fn is_never(self) -> bool {
        self.numerator() == 0
    }

    /// Whether the chance is all.
    pub open spec fn is_always(self) -> bool {
        self.numerator() == self.denominator()
    }

    /// The chance of `numerator` in `denominator`, where that is a chance:
    /// the denominator is not zero and the numerator is not above it.
    pub fn new(numerator: u32, denominator: u32) -> (p: Option<Probability>)
        ensures
            (0 < denominator && numerator <= denominator) <==> p is Some,
            p is Some ==> p->Some_0.numerator() == numerator && p->Some_0.denominator()
                == denominator,
    {
        if denominator == 0 || numerator > denominator {
            None
        } else {
            Some(Probability { numerator, denominator })
        }
    }

    /// The chance that never comes true.
    pub fn never() -> (p: Probability)
        ensures
            p.numerator() == 0,
            p.denominator() == 1,
    {
        Probability { numerator: 0, denominator: 1 }
    }

    /// The chance that always comes true.
    pub fn always() -> (p: Probability)
        ensures
            p.numerator() == 1,
            p.denominator() == 1,
    {
        Probability { numerator: 1, denominator: 1 }
    }

    /// One trial. A chance of none never comes true, a chance of all always.
    pub fn trial(&self, rng: &mut StdRng) -> (hit: bool)
        ensures
            self.is_never() ==> !hit,
            self.is_always() ==> hit,
    {
        proof {
            use_type_invariant(self);
        }
        draw_ratio(rng, self.numerator, self.denominator)
    }
}

/// A fair coin.
pub fn coin(rng: &mut StdRng) -> bool {
    draw_coin(rng)
}

/// A number from `low` up to `high`, both included. Where `low` lies above
/// `high` the number is `high`: the lower bound gives way.
pub fn pick_between(rng: &mut StdRng, low: u32, high: u32) -> (value: u32)
    ensures
        value <= high,
        low <= high ==> low <= value,
        low > high ==> value == high,
{
    if low > high {
        high
    } else {
        draw_in(rng, low, high)
    }
}

/// A number from `low` up to but not including `high`. Where there is no
/// such number the result is the lower of the two bounds.
pub fn pick_below(rng: &mut StdRng, low: u32, high: u32) -> (value: u32)
    ensures
        low < high ==> low <= value < high,
        low >= high ==> value == high,
{
    if low >= high {
        high
    } else {
        draw_in(rng, low, high - 1)
    }
}

} // verus!
