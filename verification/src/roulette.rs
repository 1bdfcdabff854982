//! Sampling plan of a hypotrochoid: the curve traced by a pen fixed to a
//! circle that rolls inside a larger one.
//!
//! The two circles are geared `inner : outer`. The rolling circle is sampled
//! at a fixed number of steps per revolution, and one traversal of the curve
//! lasts `inner` revolutions: the first sample is reached with the pen up,
//! every later one is drawn to, and the last one closes the curve.

use vstd::prelude::*;
use vstd::arithmetic::div_mod::{
    lemma_div_multiples_vanish, lemma_fundamental_div_mod, lemma_mod_multiples_basic,
};
use crate::error::ConfigError;

verus! {

/// Samples taken in one revolution of the rolling circle.
pub const STEPS_PER_REV: u32 = 40;

/// How the pen reaches a sample of the curve.
#[derive(Debug, Clone, Copy, PartialEq, Eq, Structural)]
pub enum Stroke {
    /// With the pen up: the sample starts the curve.
    MoveTo,
    /// With the pen down, in a straight line from the sample before.
    Draw,
}

/// The gearing of the rolling circle (`inner`) against the fixed one
/// (`outer`).
#[derive(Debug, Clone, Copy)]
pub struct Gearing {
    inner: u32,
    outer: u32,
}

/// The step at which a traversal with `inner` revolutions ends.
pub open spec fn closing_step_of(inner: nat) -> nat {
    inner * (STEPS_PER_REV as nat)
}

/// The number of samples in a traversal: one per step, both ends counted.
pub open spec fn sample_count_of(inner: nat) -> nat {
    closing_step_of(inner) + 1
}

/// How the sample at `step` is reached, if the traversal has such a sample.
pub open spec fn stroke_of(inner: nat, step: nat) -> Option<Stroke> {
    if step >= sample_count_of(inner) {
        None
    } else if step == 0 {
        Some(Stroke::MoveTo)
    } else {
        Some(Stroke::Draw)
    }
}

impl Gearing {
    /// Gear count of the rolling circle.
    pub closed spec fn inner_teeth(&self) -> nat {
        self.inner as nat
    }

    /// Gear count of the fixed circle.
    pub closed spec fn outer_teeth(&self) -> nat {
        self.outer as nat
    }

    /// The rolling circle is no larger than the fixed one.
    #[verifier::type_invariant]
    pub open spec fn wf(&self) -> bool {
        self.inner_teeth() <= self.outer_teeth()
    }

    /// Accepts a gearing whose rolling circle is no larger than the fixed
    /// one.
    pub fn new(inner: u32, outer: u32) -> (made: Result<Gearing, ConfigError>)
        ensures
            made is Ok <==> inner <= outer,
            made matches Ok(gearing) ==> gearing.wf() && gearing.inner_teeth() == inner
                && gearing.outer_teeth() == outer,
            made matches Err(e) ==> e == ConfigError::InnerExceedsOuter,
    {
        if inner > outer {
            Err(ConfigError::InnerExceedsOuter)
        } else {
            Ok(Gearing { inner, outer })
        }
    }

    /// Gear count of the rolling circle.
    pub fn inner(&self) -> (teeth: u32)
        ensures
            teeth == self.inner_teeth(),
    {
        self.inner
    }

    /// Gear count of the fixed circle.
    pub fn outer(&self) -> (teeth: u32)
        ensures
            teeth == self.outer_teeth(),
    {
        self.outer
    }

    /// The step of the last sample.
    pub fn closing_step(&self) -> (step: u64)
        ensures
            step == closing_step_of(self.inner_teeth()),
    {
        self.inner as u64 * STEPS_PER_REV as u64
    }

    /// The number of samples in one traversal.
    pub fn sample_count(&self) -> (count: u64)
        ensures
            count == sample_count_of(self.inner_teeth()),
    {
        self.closing_step() + 1
    }

    /// How the sample at `step` is reached: none lies past the closing step,
    /// the first is moved to, the others are drawn to.
    pub fn stroke_at(&self, step: u64) -> (stroke: Option<Stroke>)
        ensures
            stroke == stroke_of(self.inner_teeth(), step as nat),
    {
        if step > self.closing_step() {
            None
        } else if step == 0 {
            Some(Stroke::MoveTo)
        } else {
            Some(Stroke::Draw)
        }
    }
}

/// Greatest common divisor, by Euclid's algorithm.
pub open spec fn gcd(a: nat, b: nat) -> nat
    decreases b,
{
    if b == 0 {
        a
    } else {
        gcd(b, a % b)
    }
}

/// Whole turns that the rolling circle has made around the fixed one at
/// `step`; its angle there is `step / STEPS_PER_REV` turns.
pub open spec fn rolling_turns(step: nat) -> int {
    step as int / (STEPS_PER_REV as int)
}

/// Whole turns that the pen has made on the rolling circle at `step`; its
/// angle there is `(outer - inner) * step / (inner * STEPS_PER_REV)` turns,
/// in the sense opposite to the rolling.
pub open spec fn pen_turns(inner: nat, outer: nat, step: nat) -> int {
    ((outer - inner) * step) / ((inner * (STEPS_PER_REV as nat)) as int)
}

/// The rolling circle is back where it started: its angle at `step` is a
/// whole number of turns.
pub open spec fn rolling_is_home(step: nat) -> bool {
    step as int % (STEPS_PER_REV as int) == 0
}

/// The pen is back where it started on the rolling circle: its angle at
/// `step` is a whole number of turns.
pub open spec fn pen_is_home(inner: nat, outer: nat, step: nat) -> bool {
    ((outer - inner) * step) % ((inner * (STEPS_PER_REV as nat)) as int) == 0
}

/// Both angles that place the pen are whole turns at `step`, so the sample
/// there has the angles of the first sample.
pub open spec fn realigned(inner: nat, outer: nat, step: nat) -> bool {
    rolling_is_home(step) && pen_is_home(inner, outer, step)
}

/// Integers `x`, `y` with `a * x + b * y == gcd(a, b)`.
proof fn lemma_bezout(a: nat, b: nat) -> (c: (int, int))
    ensures
        a * c.0 + b * c.1 == gcd(a, b),
    decreases b,
{
    if b == 0 {
        (1, 0)
    } else {
        let (x, y) = lemma_bezout(b, a % b);
        let q = (a / b) as int;
        let r = (a % b) as int;
        lemma_fundamental_div_mod(a as int, b as int);
        assert(a * y + b * (x - q * y) == b * x + r * y) by (nonlinear_arith)
            requires
                a == b * q + r,
        ;
        (y, x - q * y)
    }
}

/// A traversal ends realigned: at the closing step the rolling circle has
/// made exactly `inner` turns and the pen exactly `outer - inner` turns on
/// it, so the last sample has the angles of the first. The two turn in
/// opposite senses, and their turns add up to `outer`: the number of times
/// the pen has pointed straight away from the centre on the way.
pub proof fn lemma_traversal_closes(inner: nat, outer: nat)
    requires
        1 <= inner <= outer,
    ensures
        realigned(inner, outer, 0),
        realigned(inner, outer, closing_step_of(inner)),
        rolling_turns(closing_step_of(inner)) == inner,
        pen_turns(inner, outer, closing_step_of(inner)) == outer - inner,
        rolling_turns(closing_step_of(inner)) + pen_turns(inner, outer, closing_step_of(inner))
            == outer,
{
    let period = (inner * (STEPS_PER_REV as nat)) as int;
    let spread = (outer - inner) as int;
    assert(period == 40 * inner) by (nonlinear_arith)
        requires
            period == inner * 40,
    ;
    assert(closing_step_of(inner) as int == period);
    lemma_mod_multiples_basic(spread, period);
    lemma_div_multiples_vanish(spread, period);
    assert(spread * period == period * spread) by (nonlinear_arith);
    assert((spread * 0) % period == 0) by (nonlinear_arith)
        requires
            period > 0,
    ;
}

/// With coprime gears the two angles are never both whole turns before the
/// closing step: `inner` revolutions are the shortest traversal that brings
/// them back together.
pub proof fn lemma_no_earlier_closure(inner: nat, outer: nat, step: nat)
    requires
        1 <= inner <= outer,
        gcd(inner, outer) == 1,
        0 < step < closing_step_of(inner),
    ensures
        !realigned(inner, outer, step),
{
    if realigned(inner, outer, step) {
        let k = (step / 40) as int;
        assert(step == 40 * k);
        let period = (inner * 40) as int;
        let spread = (outer - inner) as int;
        assert(0 < k < inner) by (nonlinear_arith)
            requires
                0 < 40 * k < inner * 40,
        ;
        let m = (spread * step) / period;
        lemma_fundamental_div_mod(spread * step, period);
        assert(spread * step == period * m);
        assert(outer * k == inner * (m + k)) by (nonlinear_arith)
            requires
                spread * step == period * m,
                step == 40 * k,
                period == inner * 40,
                spread == outer - inner,
        ;
        let (x, y) = lemma_bezout(inner, outer);
        let q = k * x + (m + k) * y;
        assert(k == inner * q) by (nonlinear_arith)
            requires
                inner * x + outer * y == 1,
                outer * k == inner * (m + k),
                q == k * x + (m + k) * y,
        ;
        assert(false) by (nonlinear_arith)
            requires
                k == inner * q,
                0 < k < inner,
        ;
    }
}

} // verus!
