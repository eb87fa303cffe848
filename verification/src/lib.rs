//! Verified state machines of Wilder-style technical-analysis indicators.
//!
//! Each indicator here owns the discrete part of its state (its period, and
//! which warm-up phase it is in) and, on every new bar, says which update
//! rule applies to that bar. The contracts pin that choice down exactly, as a
//! function of the period and of how many bars were seen since construction
//! or the last reset.
pub mod errors;
pub mod indicators;
pub mod label;

pub use errors::TaError;
pub use indicators::{
    AdxStep, DirectionalMovementIndex, DmSmoothing, DmiCounters, DmiStep, RsiMove, SmoothingStep, TrueRange,
    TrueRangeStep, WilderAverageTrueRange, WilderRelativeStrengthIndex, WilderSmoothing,
    DEFAULT_PERIOD,
};
