//! Wilder's smoothing average (RMA): `RMA_t = k * x_t + (1 - k) * RMA_{t-1}`
//! with `k = 1 / period`, seeded by the first value.
use vstd::prelude::*;

use crate::errors::TaError;
use crate::label::{format_period_label, period_label};

verus! {

/// Which update rule Wilder's smoothing applies to an incoming value.
#[derive(Debug, Clone, Copy, PartialEq, Eq, Structural)]
pub enum SmoothingStep {
    /// First value since construction or reset: the average becomes the value.
    Seed,
    /// Every later value: `k * value + (1 - k) * average`, with `k = 1 / period`.
    Blend,
}

/// The state of Wilder's smoothing average that decides how the next value
/// is folded in: its period, and whether it has been seeded.
#[derive(Debug, Clone, Copy)]
pub struct WilderSmoothing {
    period: usize,
    is_new: bool,
}

/// The period used by the indicators' `Default` constructors.
pub const DEFAULT_PERIOD: usize = 14;

impl WilderSmoothing {
    /// The smoothing period.
    pub closed spec fn spec_period(self) -> usize {
        self.period
    }

    /// Whether a value has been seen since construction or the last reset.
    pub closed spec fn seeded(self) -> bool {
        !self.is_new
    }

    /// A freshly constructed average with the given period.
    pub closed spec fn fresh(period: usize) -> Self {
        WilderSmoothing { period, is_new: true }
    }

    /// The step that the next value goes through.
    pub open spec fn step_spec(self) -> SmoothingStep {
        if self.seeded() {
            SmoothingStep::Blend
        } else {
            SmoothingStep::Seed
        }
    }

    pub proof fn lemma_fresh(period: usize)
        ensures
            Self::fresh(period).spec_period() == period,
            !Self::fresh(period).seeded(),
    {
    }

    /// Fails with `InvalidParameter` exactly when `period` is zero.
    pub fn new(period: usize) -> (r: Result<Self, TaError>)
        ensures
            period == 0 ==> r == Err::<Self, TaError>(TaError::InvalidParameter),
            period > 0 ==> r == Ok::<Self, TaError>(Self::fresh(period)),
    {
        if period == 0 {
            Err(TaError::InvalidParameter)
        } else {
            Ok(WilderSmoothing { period, is_new: true })
        }
    }

    pub fn period(&self) -> (p: usize)
        ensures
            p == self.spec_period(),
    {
        self.period
    }

    /// Whether a value has been seen since construction or the last reset.
    pub fn is_seeded(&self) -> (b: bool)
        ensures
            b == self.seeded(),
    {
        !self.is_new
    }

    /// Rebuilds a saved average from its period and whether it was seeded.
    /// Any saved pair is taken as it is: only `new` checks the period.
    pub fn from_parts(period: usize, seeded: bool) -> (r: Self)
        ensures
            r.spec_period() == period,
            r.seeded() == seeded,
    {
        WilderSmoothing { period, is_new: !seeded }
    }

    /// Takes in a value: the first one seeds the average, every later one is
    /// blended into it.
    pub fn next(&mut self) -> (step: SmoothingStep)
        ensures
            step == old(self).step_spec(),
            final(self).spec_period() == old(self).spec_period(),
            final(self).seeded(),
    {
        if self.is_new {
            self.is_new = false;
            SmoothingStep::Seed
        } else {
            SmoothingStep::Blend
        }
    }

    /// Forgets every value seen: the average is as freshly constructed.
    pub fn reset(&mut self)
        ensures
            *final(self) == Self::fresh(old(self).spec_period()),
    {
        self.is_new = true;
    }

    /// The name of the average, `RMA(period)`.
    pub fn to_string(&self) -> (s: String)
        ensures
            s@ == period_label(seq!['R', 'M', 'A'], self.spec_period() as nat),
    {
        let s = format_period_label("RMA", self.period);
        proof {
            reveal_strlit("RMA");
        }
        s
    }
}

impl Default for WilderSmoothing {
    fn default() -> (r: Self)
        ensures
            r == Self::fresh(DEFAULT_PERIOD),
    {
        WilderSmoothing { period: DEFAULT_PERIOD, is_new: true }
    }
}

} // verus!
