use ta::{SmoothingStep, TaError, WilderSmoothing};

#[test]
fn wilder_smoothing_test_new() {
    assert!(WilderSmoothing::new(0).is_err());
    assert!(WilderSmoothing::new(1).is_ok());
}

#[test]
fn wilder_smoothing_test_default() {
    WilderSmoothing::default();
}

#[test]
fn wilder_smoothing_test_display() {
    let rma = WilderSmoothing::new(7).unwrap();
    assert_eq!(rma.to_string(), "RMA(7)");
}

#[test]
fn wilder_smoothing_zero_period_is_invalid_parameter() {
    assert_eq!(WilderSmoothing::new(0).unwrap_err(), TaError::InvalidParameter);
}

#[test]
fn wilder_smoothing_default_period_is_fourteen() {
    let rma = WilderSmoothing::default();
    assert_eq!(rma.period(), 14);
    assert!(!rma.is_seeded());
    assert_eq!(rma.to_string(), "RMA(14)");
}

#[test]
fn wilder_smoothing_seeds_then_blends() {
    let mut rma = WilderSmoothing::new(3).unwrap();
    assert_eq!(rma.next(), SmoothingStep::Seed);
    assert!(rma.is_seeded());
    for _ in 0..5 {
        assert_eq!(rma.next(), SmoothingStep::Blend);
    }
    assert_eq!(rma.period(), 3);
}

#[test]
fn wilder_smoothing_reset_seeds_again() {
    let mut rma = WilderSmoothing::new(5).unwrap();
    assert_eq!(rma.next(), SmoothingStep::Seed);
    rma.next();
    rma.next();
    rma.next();
    assert_eq!(rma.next(), SmoothingStep::Blend);

    rma.reset();
    assert!(!rma.is_seeded());
    assert_eq!(rma.period(), 5);
    assert_eq!(rma.next(), SmoothingStep::Seed);
}

#[test]
fn wilder_smoothing_from_parts_restores_phase() {
    let mut seeded = WilderSmoothing::from_parts(4, true);
    assert_eq!(seeded.period(), 4);
    assert!(seeded.is_seeded());
    assert_eq!(seeded.next(), SmoothingStep::Blend);
    let mut fresh = WilderSmoothing::from_parts(4, false);
    assert_eq!(fresh.next(), SmoothingStep::Seed);
}

#[test]
fn wilder_smoothing_from_parts_takes_saved_period_as_is() {
    let mut restored = WilderSmoothing::from_parts(0, false);
    assert_eq!(restored.period(), 0);
    assert_eq!(restored.next(), SmoothingStep::Seed);
    assert_eq!(restored.next(), SmoothingStep::Blend);
    assert_eq!(restored.to_string(), "RMA(0)");
}

#[test]
fn wilder_smoothing_label_of_large_periods() {
    assert_eq!(WilderSmoothing::new(10).unwrap().to_string(), "RMA(10)");
    assert_eq!(WilderSmoothing::new(1).unwrap().to_string(), "RMA(1)");
    assert_eq!(WilderSmoothing::new(1000).unwrap().to_string(), "RMA(1000)");
    assert_eq!(
        WilderSmoothing::new(usize::MAX).unwrap().to_string(),
        format!("RMA({})", usize::MAX)
    );
}
