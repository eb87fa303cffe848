//! True range: `max(high - low, |high - prev_close|, |low - prev_close|)`,
//! or `high - low` on the first bar, which has no previous close.
use vstd::prelude::*;

verus! {

/// Which formula the true range uses for an incoming bar.
#[derive(Debug, Clone, Copy, PartialEq, Eq, Structural)]
pub enum TrueRangeStep {
    /// No previous close yet: the range of the bar itself (`high - low`),
    /// or `0` for a bare value.
    First,
    /// The widest of the bar's range and its distances to the previous close
    /// (for a bare value, its distance to the previous value).
    WithPrevious,
}

/// The state of the true range that decides its formula: whether a previous
/// close is known.
#[derive(Debug, Clone, Copy)]
pub struct TrueRange {
    has_prev: bool,
}

impl TrueRange {
    /// Whether a bar has been seen since construction or the last reset.
    pub closed spec fn has_previous(self) -> bool {
        self.has_prev
    }

    /// A freshly constructed true range.
    pub closed spec fn fresh() -> Self {
        TrueRange { has_prev: false }
    }

    pub proof fn lemma_fresh()
        ensures
            !Self::fresh().has_previous(),
    {
    }

    /// The step that the next bar goes through.
    pub open spec fn step_spec(self) -> TrueRangeStep {
        if self.has_previous() {
            TrueRangeStep::WithPrevious
        } else {
            TrueRangeStep::First
        }
    }

    pub fn new() -> (r: Self)
        ensures
            r == Self::fresh(),
    {
        TrueRange { has_prev: false }
    }

    /// Whether a previous close is known.
    pub fn has_previous_close(&self) -> (b: bool)
        ensures
            b == self.has_previous(),
    {
        self.has_prev
    }

    /// Rebuilds a saved true range from whether it knew a previous close.
    pub fn from_parts(has_previous: bool) -> (r: Self)
        ensures
            r.has_previous() == has_previous,
    {
        TrueRange { has_prev: has_previous }
    }

    /// Takes in a bar; its close becomes the previous close.
    pub fn next(&mut self) -> (step: TrueRangeStep)
        ensures
            step == old(self).step_spec(),
            final(self).has_previous(),
    {
        let step = if self.has_prev {
            TrueRangeStep::WithPrevious
        } else {
            TrueRangeStep::First
        };
        self.has_prev = true;
        step
    }

    /// Forgets the previous close.
    pub fn reset(&mut self)
        ensures
            *final(self) == Self::fresh(),
    {
        self.has_prev = false;
    }
}

impl Default for TrueRange {
    fn default() -> (r: Self)
        ensures
            r == Self::fresh(),
    {
        TrueRange { has_prev: false }
    }
}

} // verus!
