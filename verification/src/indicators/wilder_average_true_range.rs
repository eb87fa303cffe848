//! Wilder's average true range: the true range smoothed with Wilder's
//! smoothing (`k = 1 / period`).
use vstd::prelude::*;

use crate::errors::TaError;
use crate::indicators::true_range::{TrueRange, TrueRangeStep};
use crate::indicators::wilder_smoothing::{SmoothingStep, WilderSmoothing, DEFAULT_PERIOD};
use crate::label::{format_period_label, period_label};

verus! {

/// The state of Wilder's average true range that decides how the next bar
/// is folded in: that of its true range and that of its smoothing.
#[derive(Debug, Clone, Copy)]
pub struct WilderAverageTrueRange {
    true_range: TrueRange,
    rma: WilderSmoothing,
}

impl WilderAverageTrueRange {
    pub closed spec fn spec_period(self) -> usize {
        self.rma.spec_period()
    }

    /// The true range knows a previous close exactly when the smoothing has
    /// been seeded: both have seen the same bars. Construction and reset
    /// establish it and every bar keeps it; a restored indicator may lack it.
    pub open spec fn in_step(self) -> bool {
        self.spec_true_range().has_previous() == self.spec_rma().seeded()
    }

    pub closed spec fn spec_true_range(self) -> TrueRange {
        self.true_range
    }

    pub closed spec fn spec_rma(self) -> WilderSmoothing {
        self.rma
    }

    /// A freshly constructed indicator with the given period.
    pub closed spec fn fresh(period: usize) -> Self {
        WilderAverageTrueRange { true_range: TrueRange::fresh(), rma: WilderSmoothing::fresh(period) }
    }

    pub proof fn lemma_fresh(period: usize)
        ensures
            Self::fresh(period).spec_period() == period,
            Self::fresh(period).spec_true_range() == TrueRange::fresh(),
            Self::fresh(period).spec_rma() == WilderSmoothing::fresh(period),
            Self::fresh(period).in_step(),
            !Self::fresh(period).spec_rma().seeded(),
    {
        WilderSmoothing::lemma_fresh(period);
        TrueRange::lemma_fresh();
    }

    /// Fails with `InvalidParameter` exactly when `period` is zero.
    pub fn new(period: usize) -> (r: Result<Self, TaError>)
        ensures
            period == 0 ==> r == Err::<Self, TaError>(TaError::InvalidParameter),
            period > 0 ==> r == Ok::<Self, TaError>(Self::fresh(period)),
    {
        let true_range = TrueRange::new();
        match WilderSmoothing::new(period) {
            Ok(rma) => {
                proof {
                    TrueRange::lemma_fresh();
                    WilderSmoothing::lemma_fresh(period);
                }
                Ok(WilderAverageTrueRange { true_range, rma })
            },
            Err(e) => Err(e),
        }
    }

    pub fn period(&self) -> (p: usize)
        ensures
            p == self.spec_period(),
    {
        self.rma.period()
    }

    /// The states of the true range and of the smoothing.
    pub fn parts(&self) -> (r: (TrueRange, WilderSmoothing))
        ensures
            r == (self.spec_true_range(), self.spec_rma()),
    {
        (self.true_range, self.rma)
    }

    /// Rebuilds a saved indicator from the states of its true range and of
    /// its smoothing, taken as they are.
    pub fn from_parts(true_range: TrueRange, rma: WilderSmoothing) -> (r: Self)
        ensures
            r.spec_true_range() == true_range,
            r.spec_rma() == rma,
    {
        WilderAverageTrueRange { true_range, rma }
    }

    /// Takes in a bar: its true range, then the smoothing of that range.
    /// When both parts are in step (always, unless restored otherwise), the
    /// first bar since construction or reset has no previous close and seeds
    /// the average, and every later one is measured against the previous
    /// close and blended in.
    pub fn next(&mut self) -> (steps: (TrueRangeStep, SmoothingStep))
        ensures
            steps == (old(self).spec_true_range().step_spec(), old(self).spec_rma().step_spec()),
            old(self).in_step() && !old(self).spec_rma().seeded() ==> steps == (
                TrueRangeStep::First,
                SmoothingStep::Seed,
            ),
            old(self).in_step() && old(self).spec_rma().seeded() ==> steps == (
                TrueRangeStep::WithPrevious,
                SmoothingStep::Blend,
            ),
            final(self).spec_true_range().has_previous(),
            final(self).spec_rma().seeded(),
            final(self).in_step(),
            final(self).spec_period() == old(self).spec_period(),
    {
        let mut true_range = self.true_range;
        let mut rma = self.rma;
        let tr_step = true_range.next();
        let rma_step = rma.next();
        *self = WilderAverageTrueRange { true_range, rma };
        (tr_step, rma_step)
    }

    /// Forgets every bar seen: the indicator is as freshly constructed.
    pub fn reset(&mut self)
        ensures
            *final(self) == Self::fresh(old(self).spec_period()),
    {
        let ghost period = self.rma.spec_period();
        let mut true_range = self.true_range;
        let mut rma = self.rma;
        true_range.reset();
        rma.reset();
        proof {
            TrueRange::lemma_fresh();
            WilderSmoothing::lemma_fresh(period);
        }
        *self = WilderAverageTrueRange { true_range, rma };
    }

    /// The name of the indicator, `WATR(period)`.
    pub fn to_string(&self) -> (s: String)
        ensures
            s@ == period_label(seq!['W', 'A', 'T', 'R'], self.spec_period() as nat),
    {
        let s = format_period_label("WATR", self.rma.period());
        proof {
            reveal_strlit("WATR");
        }
        s
    }
}

impl Default for WilderAverageTrueRange {
    fn default() -> (r: Self)
        ensures
            r == Self::fresh(DEFAULT_PERIOD),
    {
        proof {
            TrueRange::lemma_fresh();
            WilderSmoothing::lemma_fresh(DEFAULT_PERIOD);
        }
        WilderAverageTrueRange { true_range: TrueRange::new(), rma: WilderSmoothing::default() }
    }
}

} // verus!
