//! Wilder's relative strength index:
//! `RSI_t = 100 * RMA(U)_t / (RMA(U)_t + RMA(D)_t)`, where `U` and `D` are the
//! upward and downward moves of the price, each smoothed with Wilder's
//! smoothing (`k = 1 / period`).
use vstd::prelude::*;

use crate::errors::TaError;
use crate::indicators::wilder_smoothing::{SmoothingStep, WilderSmoothing, DEFAULT_PERIOD};
use crate::label::{format_period_label, period_label};

verus! {

/// Where the up and down moves of an incoming price come from.
#[derive(Debug, Clone, Copy, PartialEq, Eq, Structural)]
pub enum RsiMove {
    /// First price since construction or reset: there is no previous price,
    /// so both moves are the small seed `0.1` (which keeps the ratio defined).
    Seed,
    /// Every later price: `U = p - prev` and `D = 0` when the price rose,
    /// else `U = 0` and `D = prev - p`.
    Change,
}

/// The state of Wilder's RSI that decides how the next price is folded in.
#[derive(Debug, Clone, Copy)]
pub struct WilderRelativeStrengthIndex {
    period: usize,
    up_rma: WilderSmoothing,
    down_rma: WilderSmoothing,
    is_new: bool,
}

impl WilderRelativeStrengthIndex {
    /// Both averages share the indicator's period, and both have been seeded
    /// exactly when the indicator has seen a price. Construction and reset
    /// establish it and every price keeps it; a restored indicator may lack it.
    pub open spec fn consistent(self) -> bool {
        &&& self.spec_up_rma().spec_period() == self.spec_period()
        &&& self.spec_down_rma().spec_period() == self.spec_period()
        &&& self.spec_up_rma().seeded() == self.started()
        &&& self.spec_down_rma().seeded() == self.started()
    }

    pub closed spec fn spec_period(self) -> usize {
        self.period
    }

    /// Whether a price has been seen since construction or the last reset.
    pub closed spec fn started(self) -> bool {
        !self.is_new
    }

    pub closed spec fn spec_up_rma(self) -> WilderSmoothing {
        self.up_rma
    }

    pub closed spec fn spec_down_rma(self) -> WilderSmoothing {
        self.down_rma
    }

    /// A freshly constructed indicator with the given period.
    pub closed spec fn fresh(period: usize) -> Self {
        WilderRelativeStrengthIndex {
            period,
            up_rma: WilderSmoothing::fresh(period),
            down_rma: WilderSmoothing::fresh(period),
            is_new: true,
        }
    }

    pub proof fn lemma_fresh(period: usize)
        ensures
            Self::fresh(period).spec_period() == period,
            !Self::fresh(period).started(),
            Self::fresh(period).spec_up_rma() == WilderSmoothing::fresh(period),
            Self::fresh(period).spec_down_rma() == WilderSmoothing::fresh(period),
            Self::fresh(period).consistent(),
    {
        WilderSmoothing::lemma_fresh(period);
    }

    /// The steps that the next price goes through: where its moves come
    /// from, then how the average of up moves and that of down moves take
    /// them in.
    pub open spec fn step_spec(self) -> (RsiMove, SmoothingStep, SmoothingStep) {
        (
            if self.started() {
                RsiMove::Change
            } else {
                RsiMove::Seed
            },
            self.spec_up_rma().step_spec(),
            self.spec_down_rma().step_spec(),
        )
    }

    /// Fails with `InvalidParameter` exactly when `period` is zero.
    pub fn new(period: usize) -> (r: Result<Self, TaError>)
        ensures
            period == 0 ==> r == Err::<Self, TaError>(TaError::InvalidParameter),
            period > 0 ==> r == Ok::<Self, TaError>(Self::fresh(period)),
    {
        let up_rma = match WilderSmoothing::new(period) {
            Ok(rma) => rma,
            Err(e) => {
                return Err(e);
            },
        };
        let down_rma = match WilderSmoothing::new(period) {
            Ok(rma) => rma,
            Err(e) => {
                return Err(e);
            },
        };
        proof {
            WilderSmoothing::lemma_fresh(period);
        }
        Ok(WilderRelativeStrengthIndex { period, up_rma, down_rma, is_new: true })
    }

    pub fn period(&self) -> (p: usize)
        ensures
            p == self.spec_period(),
    {
        self.period
    }

    /// Whether a price has been seen since construction or the last reset.
    pub fn is_started(&self) -> (b: bool)
        ensures
            b == self.started(),
    {
        !self.is_new
    }

    /// The states of the averages of up moves and of down moves.
    pub fn parts(&self) -> (r: (WilderSmoothing, WilderSmoothing))
        ensures
            r == (self.spec_up_rma(), self.spec_down_rma()),
    {
        (self.up_rma, self.down_rma)
    }

    /// Rebuilds a saved indicator from its period, whether it has seen a
    /// price, and the states of its two averages, taken as they are.
    pub fn from_parts(
        period: usize,
        started: bool,
        up_rma: WilderSmoothing,
        down_rma: WilderSmoothing,
    ) -> (r: Self)
        ensures
            r.spec_period() == period,
            r.started() == started,
            r.spec_up_rma() == up_rma,
            r.spec_down_rma() == down_rma,
    {
        WilderRelativeStrengthIndex { period, up_rma, down_rma, is_new: !started }
    }

    /// Takes in a price. When the indicator is consistent (always, unless
    /// restored otherwise), the first price since construction or reset
    /// seeds both averages with `0.1`, and every later one blends its up and
    /// down moves into them.
    pub fn next(&mut self) -> (steps: (RsiMove, SmoothingStep, SmoothingStep))
        ensures
            steps == old(self).step_spec(),
            old(self).consistent() && !old(self).started() ==> steps == (
                RsiMove::Seed,
                SmoothingStep::Seed,
                SmoothingStep::Seed,
            ),
            old(self).consistent() && old(self).started() ==> steps == (
                RsiMove::Change,
                SmoothingStep::Blend,
                SmoothingStep::Blend,
            ),
            final(self).started(),
            final(self).spec_up_rma().seeded(),
            final(self).spec_down_rma().seeded(),
            final(self).spec_up_rma().spec_period() == old(self).spec_up_rma().spec_period(),
            final(self).spec_down_rma().spec_period() == old(self).spec_down_rma().spec_period(),
            final(self).spec_period() == old(self).spec_period(),
            old(self).consistent() ==> final(self).consistent(),
    {
        let source = if self.is_new {
            RsiMove::Seed
        } else {
            RsiMove::Change
        };
        let mut up_rma = self.up_rma;
        let mut down_rma = self.down_rma;
        let up_step = up_rma.next();
        let down_step = down_rma.next();
        *self = WilderRelativeStrengthIndex { period: self.period, up_rma, down_rma, is_new: false };
        (source, up_step, down_step)
    }

    /// Forgets every price seen: each average is as freshly constructed
    /// with its own period, so a consistent indicator is as freshly
    /// constructed.
    pub fn reset(&mut self)
        ensures
            final(self).spec_period() == old(self).spec_period(),
            !final(self).started(),
            final(self).spec_up_rma() == WilderSmoothing::fresh(
                old(self).spec_up_rma().spec_period(),
            ),
            final(self).spec_down_rma() == WilderSmoothing::fresh(
                old(self).spec_down_rma().spec_period(),
            ),
            old(self).consistent() ==> *final(self) == Self::fresh(old(self).spec_period()),
    {
        let mut up_rma = self.up_rma;
        let mut down_rma = self.down_rma;
        up_rma.reset();
        down_rma.reset();
        proof {
            WilderSmoothing::lemma_fresh(self.period);
        }
        *self = WilderRelativeStrengthIndex { period: self.period, up_rma, down_rma, is_new: true };
    }

    /// The name of the indicator, `WRSI(period)`.
    pub fn to_string(&self) -> (s: String)
        ensures
            s@ == period_label(seq!['W', 'R', 'S', 'I'], self.spec_period() as nat),
    {
        let s = format_period_label("WRSI", self.period);
        proof {
            reveal_strlit("WRSI");
        }
        s
    }
}

impl Default for WilderRelativeStrengthIndex {
    fn default() -> (r: Self)
        ensures
            r == Self::fresh(DEFAULT_PERIOD),
    {
        proof {
            WilderSmoothing::lemma_fresh(DEFAULT_PERIOD);
        }
        WilderRelativeStrengthIndex {
            period: DEFAULT_PERIOD,
            up_rma: WilderSmoothing::default(),
            down_rma: WilderSmoothing::default(),
            is_new: true,
        }
    }
}

} // verus!
