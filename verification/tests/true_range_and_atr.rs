use ta::{SmoothingStep, TrueRange, TrueRangeStep, WilderAverageTrueRange, WilderSmoothing};

#[test]
fn wilder_average_true_range_test_new() {
    assert!(WilderAverageTrueRange::new(0).is_err());
    assert!(WilderAverageTrueRange::new(1).is_ok());
}

#[test]
fn wilder_average_true_range_test_default() {
    WilderAverageTrueRange::default();
}

#[test]
fn wilder_average_true_range_test_display() {
    let indicator = WilderAverageTrueRange::new(8).unwrap();
    assert_eq!(indicator.to_string(), "WATR(8)");
}

#[test]
fn true_range_first_bar_has_no_previous_close() {
    let mut tr = TrueRange::new();
    assert!(!tr.has_previous_close());
    assert_eq!(tr.next(), TrueRangeStep::First);
    assert_eq!(tr.next(), TrueRangeStep::WithPrevious);
    assert_eq!(tr.next(), TrueRangeStep::WithPrevious);
    tr.reset();
    assert_eq!(tr.next(), TrueRangeStep::First);
    assert!(!TrueRange::default().has_previous_close());
    assert!(TrueRange::from_parts(true).has_previous_close());
}

#[test]
fn wilder_average_true_range_steps() {
    let mut atr = WilderAverageTrueRange::new(3).unwrap();
    assert_eq!(atr.period(), 3);
    assert_eq!(atr.next(), (TrueRangeStep::First, SmoothingStep::Seed));
    assert_eq!(atr.next(), (TrueRangeStep::WithPrevious, SmoothingStep::Blend));
    assert_eq!(atr.next(), (TrueRangeStep::WithPrevious, SmoothingStep::Blend));
}

#[test]
fn wilder_average_true_range_reset_starts_over() {
    let mut atr = WilderAverageTrueRange::new(9).unwrap();
    atr.next();
    atr.next();
    atr.reset();
    assert_eq!(atr.period(), 9);
    assert_eq!(atr.next(), (TrueRangeStep::First, SmoothingStep::Seed));
}

#[test]
fn wilder_average_true_range_default_is_fourteen() {
    let atr = WilderAverageTrueRange::default();
    assert_eq!(atr.period(), 14);
    assert_eq!(atr.to_string(), "WATR(14)");
}

#[test]
fn wilder_average_true_range_from_parts_round_trips() {
    let seeded = WilderSmoothing::from_parts(5, true);
    let mut atr = WilderAverageTrueRange::from_parts(TrueRange::from_parts(true), seeded);
    assert_eq!(atr.period(), 5);
    assert_eq!(atr.next(), (TrueRangeStep::WithPrevious, SmoothingStep::Blend));

    let (tr, rma) = atr.parts();
    assert!(tr.has_previous_close());
    assert!(rma.is_seeded());
    assert_eq!(rma.period(), 5);
}

#[test]
fn wilder_average_true_range_from_parts_takes_parts_as_they_are() {
    // A true range with a previous close next to an unseeded smoothing: each
    // part goes its own way on the next bar, then both are in step.
    let fresh = WilderSmoothing::from_parts(5, false);
    let mut atr = WilderAverageTrueRange::from_parts(TrueRange::from_parts(true), fresh);
    assert_eq!(atr.next(), (TrueRangeStep::WithPrevious, SmoothingStep::Seed));
    assert_eq!(atr.next(), (TrueRangeStep::WithPrevious, SmoothingStep::Blend));

    let seeded = WilderSmoothing::from_parts(5, true);
    let mut atr = WilderAverageTrueRange::from_parts(TrueRange::from_parts(false), seeded);
    assert_eq!(atr.next(), (TrueRangeStep::First, SmoothingStep::Blend));
    atr.reset();
    assert_eq!(atr.next(), (TrueRangeStep::First, SmoothingStep::Seed));
}
