pub mod directional_movement_index;
pub mod true_range;
pub mod wilder_average_true_range;
pub mod wilder_relative_strength_index;
pub mod wilder_smoothing;

pub use directional_movement_index::{
    AdxStep, DirectionalMovementIndex, DmSmoothing, DmiCounters, DmiStep,
};
pub use true_range::{TrueRange, TrueRangeStep};
pub use wilder_average_true_range::WilderAverageTrueRange;
pub use wilder_relative_strength_index::{RsiMove, WilderRelativeStrengthIndex};
pub use wilder_smoothing::{SmoothingStep, WilderSmoothing, DEFAULT_PERIOD};
