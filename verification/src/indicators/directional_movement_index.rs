//! Wilder's directional movement index (+DI, -DI) and average directional
//! index (ADX).
//!
//! On every bar after the first, the directional moves (+DM, -DM) and the true
//! range (TR) are first summed over `period` bars, then smoothed with
//! `S_t = S_{t-1} - S_{t-1} / period + x_t`. Once those sums exist, each bar's
//! DX is collected: the first `period` DX values are averaged (the running
//! average is reported meanwhile), and their average seeds the ADX, which is
//! then smoothed with `ADX_t = (ADX_{t-1} * (period - 1) + DX_t) / period`.
use vstd::prelude::*;

use crate::errors::TaError;
use crate::indicators::true_range::{TrueRange, TrueRangeStep};
use crate::indicators::wilder_smoothing::DEFAULT_PERIOD;
use crate::label::{format_period_label, period_label};

verus! {

/// How a bar's +DM, -DM and TR enter their running values.
#[derive(Debug, Clone, Copy, PartialEq, Eq, Structural)]
pub enum DmSmoothing {
    /// One of the first `period` bars after the first: added to the sums.
    Accumulate,
    /// Every later bar: `S = S - S / period + x`.
    Smooth,
}

/// How a bar's DX enters the ADX.
#[derive(Debug, Clone, Copy, PartialEq, Eq, Structural)]
pub enum AdxStep {
    /// The DM/TR sums are still being collected: no DX is used, the ADX
    /// reported is `0`.
    Pending,
    /// The DX is added to the DX sum, which then holds `count` values
    /// (`1 <= count <= period`); the ADX reported is that sum over `count`.
    /// When `completes`, the initial ADX is set to the sum over `period`.
    Warmup { count: usize, completes: bool },
    /// `ADX = (ADX * (period - 1) + DX) / period`.
    Smooth,
}

/// What the directional movement index does with a bar.
#[derive(Debug, Clone, Copy, PartialEq, Eq, Structural)]
pub enum DmiStep {
    /// First bar since construction or reset: only its high and low are
    /// kept; the output is all zero.
    First,
    /// Every later bar: its moves against the previous high and low.
    Directional { smoothing: DmSmoothing, adx: AdxStep },
}

/// The ADX step of the bar that comes after `n` bars.
pub open spec fn adx_step_at(period: nat, n: nat) -> AdxStep {
    if n < period {
        AdxStep::Pending
    } else if n < 2 * period {
        AdxStep::Warmup { count: (n - period + 1) as usize, completes: n + 1 == 2 * period }
    } else {
        AdxStep::Smooth
    }
}

/// The step of the bar that comes after `n` bars since construction or reset.
pub open spec fn dmi_step_at(period: nat, n: nat) -> DmiStep {
    if n == 0 {
        DmiStep::First
    } else {
        DmiStep::Directional {
            smoothing: if n <= period {
                DmSmoothing::Accumulate
            } else {
                DmSmoothing::Smooth
            },
            adx: adx_step_at(period, n),
        }
    }
}

/// The true-range step of the bar that comes after `n` bars.
pub open spec fn true_range_step_at(n: nat) -> TrueRangeStep {
    if n == 0 {
        TrueRangeStep::First
    } else {
        TrueRangeStep::WithPrevious
    }
}

/// How many bars the indicator counts after one more bar: the number of bars
/// seen, which stops growing at `2 * period`, where every phase is over.
pub open spec fn progress_after_bar(period: nat, n: nat) -> nat {
    if n + 1 < 2 * period {
        n + 1
    } else {
        2 * period
    }
}

/// The count after `k` bars since construction or reset.
pub open spec fn progress_after(period: nat, k: nat) -> nat
    decreases k,
{
    if k == 0 {
        0
    } else {
        progress_after_bar(period, progress_after(period, (k - 1) as nat))
    }
}

/// The count that the indicator keeps is the number of bars seen since
/// construction or reset, up to `2 * period`.
pub proof fn lemma_progress_counts_bars(period: nat, k: nat)
    requires
        period > 0,
    ensures
        progress_after(period, k) == if k < 2 * period {
            k
        } else {
            2 * period
        },
    decreases k,
{
    if k > 0 {
        lemma_progress_counts_bars(period, (k - 1) as nat);
    }
}

/// The bar that comes after `k` bars since construction or reset goes through
/// `dmi_step_at(period, k)`: stopping the count at `2 * period` loses nothing.
pub proof fn lemma_step_of_bar(period: nat, k: nat)
    requires
        period > 0,
    ensures
        dmi_step_at(period, progress_after(period, k)) == dmi_step_at(period, k),
        true_range_step_at(progress_after(period, k)) == true_range_step_at(k),
{
    lemma_progress_counts_bars(period, k);
}

/// While the DM/TR sums are collected (the first `period` bars), the ADX is
/// zero: the first bar reports all zeros, the next ones no ADX.
pub proof fn lemma_adx_zero_during_warmup(period: nat, k: nat)
    requires
        k < period,
    ensures
        dmi_step_at(period, k) == DmiStep::First || dmi_step_at(period, k) == (DmiStep::Directional {
            smoothing: DmSmoothing::Accumulate,
            adx: AdxStep::Pending,
        }),
{
}

/// +DM, -DM and TR are summed over exactly `period` bars (the bars after the
/// first, up to bar `period`), then smoothed on every later bar.
pub proof fn lemma_dm_sums_cover_one_period(period: nat, k: nat)
    requires
        period > 0,
    ensures
        1 <= k <= period <==> dmi_step_at(period, k) matches DmiStep::Directional {
            smoothing: DmSmoothing::Accumulate,
            ..
        },
        period < k <==> dmi_step_at(period, k) matches DmiStep::Directional {
            smoothing: DmSmoothing::Smooth,
            ..
        },
{
}

/// The DX values of bars `period .. 2 * period - 1` are averaged: the bar
/// after `k` bars adds the `(k - period + 1)`-th of them, so the running
/// average divides by a count between `1` and `period`, and the initial ADX is
/// set exactly once, on bar `2 * period - 1`.
pub proof fn lemma_adx_warmup(period: nat, k: nat)
    requires
        0 < period <= usize::MAX,
    ensures
        period <= k < 2 * period <==> adx_step_at(period, k) is Warmup,
        adx_step_at(period, k) matches AdxStep::Warmup { count, completes } ==> {
            &&& count == k - period + 1
            &&& 1 <= count <= period
            &&& completes <==> count == period
            &&& completes <==> k == 2 * period - 1
        },
{
}

/// From bar `2 * period` on, every bar goes through the same smoothing steps.
pub proof fn lemma_steady_after_warmup(period: nat, k: nat)
    requires
        period > 0,
        k >= 2 * period,
    ensures
        dmi_step_at(period, k) == (DmiStep::Directional {
            smoothing: DmSmoothing::Smooth,
            adx: AdxStep::Smooth,
        }),
        true_range_step_at(k) == TrueRangeStep::WithPrevious,
{
}

/// The warm-up counters of the directional movement index, as saved and
/// restored.
#[derive(Debug, Clone, Copy, PartialEq, Eq, Structural)]
pub struct DmiCounters {
    /// A first bar has been seen.
    pub has_prev: bool,
    /// DM/TR values summed so far.
    pub count: usize,
    /// The DM/TR sums are complete.
    pub sm_initialized: bool,
    /// DX values summed so far.
    pub dx_count: usize,
    /// The initial ADX has been set.
    pub adx_initialized: bool,
}

/// The counters of a freshly constructed or reset indicator.
pub open spec fn fresh_counters() -> DmiCounters {
    DmiCounters {
        has_prev: false,
        count: 0,
        sm_initialized: false,
        dx_count: 0,
        adx_initialized: false,
    }
}

/// Whether the DM/TR sums are complete once the bar after `c` is taken in.
pub open spec fn sums_complete_after(period: nat, c: DmiCounters) -> bool {
    c.sm_initialized || c.count + 1 >= period
}

/// What the indicator does with the next bar, from its counters.
pub open spec fn dmi_step_from(period: nat, c: DmiCounters) -> DmiStep {
    if !c.has_prev {
        DmiStep::First
    } else {
        DmiStep::Directional {
            smoothing: if c.sm_initialized {
                DmSmoothing::Smooth
            } else {
                DmSmoothing::Accumulate
            },
            adx: if c.adx_initialized {
                AdxStep::Smooth
            } else if sums_complete_after(period, c) {
                AdxStep::Warmup {
                    count: (c.dx_count + 1) as usize,
                    completes: c.dx_count + 1 >= period,
                }
            } else {
                AdxStep::Pending
            },
        }
    }
}

/// The counters once the next bar is taken in.
pub open spec fn counters_after(period: nat, c: DmiCounters) -> DmiCounters {
    if !c.has_prev {
        DmiCounters { has_prev: true, ..c }
    } else {
        let sm = sums_complete_after(period, c);
        let dx_grows = !c.adx_initialized && sm;
        DmiCounters {
            has_prev: true,
            count: if c.sm_initialized {
                c.count
            } else {
                (c.count + 1) as usize
            },
            sm_initialized: sm,
            dx_count: if dx_grows {
                (c.dx_count + 1) as usize
            } else {
                c.dx_count
            },
            adx_initialized: c.adx_initialized || (dx_grows && c.dx_count + 1 >= period),
        }
    }
}

/// Counters on which taking in a bar overflows no counter.
pub open spec fn counters_loadable(c: DmiCounters) -> bool {
    &&& !c.sm_initialized ==> c.count < usize::MAX
    &&& !c.adx_initialized ==> c.dx_count < usize::MAX
}

/// The counters that construction, reset and bars lead to.
pub open spec fn counters_reachable(period: nat, c: DmiCounters) -> bool {
    &&& period > 0
    &&& !c.has_prev ==> c.count == 0 && !c.sm_initialized
    &&& !c.sm_initialized ==> c.count < period && c.dx_count == 0 && !c.adx_initialized
    &&& c.sm_initialized ==> c.has_prev && c.count == period
    &&& c.sm_initialized && !c.adx_initialized ==> 1 <= c.dx_count < period
    &&& c.adx_initialized ==> c.sm_initialized && c.dx_count == period
}

/// For reachable counters: the number of bars seen since construction or
/// reset, up to `2 * period`.
pub open spec fn counters_progress(period: nat, c: DmiCounters) -> nat {
    if !c.has_prev {
        0
    } else if !c.sm_initialized {
        (c.count + 1) as nat
    } else if !c.adx_initialized {
        (period + c.dx_count) as nat
    } else {
        2 * period
    }
}

/// Counters saved before the DX count was kept: the DM/TR sums are complete,
/// the ADX is not set, and the DX count reads as zero.
pub open spec fn counters_legacy(period: nat, c: DmiCounters) -> bool {
    &&& period > 0
    &&& c.has_prev
    &&& c.count == period
    &&& c.sm_initialized
    &&& c.dx_count == 0
    &&& !c.adx_initialized
}

/// On reachable counters, the next bar goes through `dmi_step_at` of the
/// number of bars seen, and the counters stay reachable with that number
/// grown by one (up to `2 * period`).
pub proof fn lemma_reachable_next(period: nat, c: DmiCounters)
    requires
        counters_reachable(period, c),
        period <= usize::MAX,
    ensures
        dmi_step_from(period, c) == dmi_step_at(period, counters_progress(period, c)),
        counters_reachable(period, counters_after(period, c)),
        counters_progress(period, counters_after(period, c)) == progress_after_bar(
            period,
            counters_progress(period, c),
        ),
{
}

/// Construction and reset give reachable counters with nothing seen.
pub proof fn lemma_fresh_counters(period: nat)
    requires
        period > 0,
    ensures
        counters_reachable(period, fresh_counters()),
        counters_progress(period, fresh_counters()) == 0,
{
}

/// Reachable counters of a period that fits in `usize` are loadable.
pub proof fn lemma_reachable_loadable(period: nat, c: DmiCounters)
    requires
        counters_reachable(period, c),
        period <= usize::MAX,
    ensures
        counters_loadable(c),
{
}

/// Counters saved before the DX count was kept resume: the next bar smooths
/// DM/TR and adds the first DX value of the ADX warm-up, after which the
/// counters are those of an indicator that has seen `period + 1` bars (up
/// to `2 * period`).
pub proof fn lemma_legacy_resumes(period: nat, c: DmiCounters)
    requires
        counters_legacy(period, c),
        period <= usize::MAX,
    ensures
        counters_loadable(c),
        dmi_step_from(period, c) == (DmiStep::Directional {
            smoothing: DmSmoothing::Smooth,
            adx: AdxStep::Warmup { count: 1, completes: period == 1 },
        }),
        counters_reachable(period, counters_after(period, c)),
        counters_progress(period, counters_after(period, c)) == progress_after_bar(period, period),
{
}

/// Taking in a bar keeps counters loadable.
proof fn lemma_loadable_next(period: nat, c: DmiCounters)
    requires
        counters_loadable(c),
        period <= usize::MAX,
    ensures
        counters_loadable(counters_after(period, c)),
{
}

/// The state of the directional movement index that decides what is done
/// with the next bar.
#[derive(Debug, Clone, Copy)]
pub struct DirectionalMovementIndex {
    period: usize,
    tr: TrueRange,
    has_prev: bool,
    /// DM/TR values summed so far (stays at `period` once they are).
    count: usize,
    sm_initialized: bool,
    /// DX values summed so far (stays at `period` once they are).
    dx_count: usize,
    adx_initialized: bool,
}

impl DirectionalMovementIndex {
    /// No counter can overflow on the next bar.
    #[verifier::type_invariant]
    spec fn inv(self) -> bool {
        counters_loadable(self.spec_counters())
    }

    pub closed spec fn spec_counters(self) -> DmiCounters {
        DmiCounters {
            has_prev: self.has_prev,
            count: self.count,
            sm_initialized: self.sm_initialized,
            dx_count: self.dx_count,
            adx_initialized: self.adx_initialized,
        }
    }

    pub closed spec fn spec_true_range(self) -> TrueRange {
        self.tr
    }

    pub closed spec fn spec_period(self) -> usize {
        self.period
    }

    /// The true range knows a previous close exactly when a first bar has
    /// been seen. Construction and reset establish it and every bar keeps
    /// it; a restored indicator may lack it.
    pub open spec fn in_step(self) -> bool {
        self.spec_true_range().has_previous() == self.spec_counters().has_prev
    }

    /// A freshly constructed indicator with the given period.
    pub closed spec fn fresh(period: usize) -> Self {
        DirectionalMovementIndex {
            period,
            tr: TrueRange::fresh(),
            has_prev: false,
            count: 0,
            sm_initialized: false,
            dx_count: 0,
            adx_initialized: false,
        }
    }

    pub proof fn lemma_fresh(period: usize)
        ensures
            Self::fresh(period).spec_period() == period,
            Self::fresh(period).spec_counters() == fresh_counters(),
            Self::fresh(period).spec_true_range() == TrueRange::fresh(),
            Self::fresh(period).in_step(),
    {
        TrueRange::lemma_fresh();
    }

    /// What the next bar goes through.
    pub open spec fn step_spec(self) -> (TrueRangeStep, DmiStep) {
        (
            self.spec_true_range().step_spec(),
            dmi_step_from(self.spec_period() as nat, self.spec_counters()),
        )
    }

    /// Fails with `InvalidParameter` exactly when `period` is zero.
    pub fn new(period: usize) -> (r: Result<Self, TaError>)
        ensures
            period == 0 ==> r == Err::<Self, TaError>(TaError::InvalidParameter),
            period > 0 ==> r == Ok::<Self, TaError>(Self::fresh(period)),
    {
        if period == 0 {
            Err(TaError::InvalidParameter)
        } else {
            proof {
                TrueRange::lemma_fresh();
            }
            Ok(
                DirectionalMovementIndex {
                    period,
                    tr: TrueRange::new(),
                    has_prev: false,
                    count: 0,
                    sm_initialized: false,
                    dx_count: 0,
                    adx_initialized: false,
                },
            )
        }
    }

    pub fn period(&self) -> (p: usize)
        ensures
            p == self.spec_period(),
    {
        self.period
    }

    /// The states of the true range and of the warm-up counters.
    pub fn parts(&self) -> (r: (TrueRange, DmiCounters))
        ensures
            r == (self.spec_true_range(), self.spec_counters()),
    {
        (
            self.tr,
            DmiCounters {
                has_prev: self.has_prev,
                count: self.count,
                sm_initialized: self.sm_initialized,
                dx_count: self.dx_count,
                adx_initialized: self.adx_initialized,
            },
        )
    }

    /// Rebuilds a saved indicator from its period, the state of its true
    /// range and its warm-up counters, as they are (counters saved before
    /// the DX count was kept included). It refuses only counters on which
    /// the next bar would overflow a counter.
    pub fn from_parts(period: usize, tr: TrueRange, c: DmiCounters) -> (r: Option<Self>)
        ensures
            r is Some <==> counters_loadable(c),
            r matches Some(s) ==> s.spec_period() == period && s.spec_true_range() == tr
                && s.spec_counters() == c,
    {
        if (c.sm_initialized || c.count < usize::MAX) && (c.adx_initialized || c.dx_count
            < usize::MAX) {
            Some(
                DirectionalMovementIndex {
                    period,
                    tr,
                    has_prev: c.has_prev,
                    count: c.count,
                    sm_initialized: c.sm_initialized,
                    dx_count: c.dx_count,
                    adx_initialized: c.adx_initialized,
                },
            )
        } else {
            None
        }
    }

    /// Takes in a bar: says how its true range is measured and how its
    /// directional movement and DX enter the running values. From
    /// construction or reset this is `dmi_step_at` of the number of bars seen
    /// (see `lemma_reachable_next`).
    pub fn next(&mut self) -> (steps: (TrueRangeStep, DmiStep))
        ensures
            steps == old(self).step_spec(),
            final(self).spec_counters() == counters_after(
                old(self).spec_period() as nat,
                old(self).spec_counters(),
            ),
            final(self).spec_true_range().has_previous(),
            final(self).spec_period() == old(self).spec_period(),
            final(self).in_step(),
    {
        proof {
            use_type_invariant(&*self);
            lemma_loadable_next(self.period as nat, self.spec_counters());
        }
        let mut tr = self.tr;
        let tr_step = tr.next();

        if !self.has_prev {
            *self = DirectionalMovementIndex { tr, has_prev: true, ..*self };
            return (tr_step, DmiStep::First);
        }
        let mut count: usize = self.count;
        let mut sm_initialized: bool = self.sm_initialized;
        let mut dx_count: usize = self.dx_count;
        let mut adx_initialized: bool = self.adx_initialized;

        // +DM, -DM and TR: summed over the first `period` bars, then smoothed.
        let smoothing = if !sm_initialized {
            count = count + 1;
            if count >= self.period {
                sm_initialized = true;
            }
            DmSmoothing::Accumulate
        } else {
            DmSmoothing::Smooth
        };

        // DX: ignored until the sums above exist, then averaged over `period`
        // values, then smoothed.
        let adx = if !adx_initialized {
            if sm_initialized {
                dx_count = dx_count + 1;
                let completes: bool = dx_count >= self.period;
                if completes {
                    adx_initialized = true;
                }
                AdxStep::Warmup { count: dx_count, completes }
            } else {
                AdxStep::Pending
            }
        } else {
            AdxStep::Smooth
        };

        *self = DirectionalMovementIndex {
            period: self.period,
            tr,
            has_prev: true,
            count,
            sm_initialized,
            dx_count,
            adx_initialized,
        };
        (tr_step, DmiStep::Directional { smoothing, adx })
    }

    /// Forgets every bar seen: the indicator is as freshly constructed.
    pub fn reset(&mut self)
        ensures
            *final(self) == Self::fresh(old(self).spec_period()),
    {
        proof {
            TrueRange::lemma_fresh();
        }
        let mut tr = self.tr;
        tr.reset();
        *self = DirectionalMovementIndex {
            period: self.period,
            tr,
            has_prev: false,
            count: 0,
            sm_initialized: false,
            dx_count: 0,
            adx_initialized: false,
        };
    }

    /// The name of the indicator, `DMI(period)`.
    pub fn to_string(&self) -> (s: String)
        ensures
            s@ == period_label(seq!['D', 'M', 'I'], self.spec_period() as nat),
    {
        let s = format_period_label("DMI", self.period);
        proof {
            reveal_strlit("DMI");
        }
        s
    }
}

impl Default for DirectionalMovementIndex {
    fn default() -> (r: Self)
        ensures
            r == Self::fresh(DEFAULT_PERIOD),
    {
        proof {
            TrueRange::lemma_fresh();
        }
        DirectionalMovementIndex {
            period: DEFAULT_PERIOD,
            tr: TrueRange::new(),
            has_prev: false,
            count: 0,
            sm_initialized: false,
            dx_count: 0,
            adx_initialized: false,
        }
    }
}

} // verus!
