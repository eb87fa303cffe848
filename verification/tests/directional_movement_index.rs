use ta::{
    AdxStep, DirectionalMovementIndex, DmSmoothing, DmiCounters, DmiStep, TrueRange, TrueRangeStep,
};

fn directional(smoothing: DmSmoothing, adx: AdxStep) -> (TrueRangeStep, DmiStep) {
    (TrueRangeStep::WithPrevious, DmiStep::Directional { smoothing, adx })
}

#[test]
fn directional_movement_index_test_new() {
    assert!(DirectionalMovementIndex::new(0).is_err());
    assert!(DirectionalMovementIndex::new(1).is_ok());
}

#[test]
fn test_default_and_display() {
    let dmi = DirectionalMovementIndex::default();
    let _ = dmi.to_string();
}

#[test]
fn directional_movement_index_names_itself() {
    assert_eq!(DirectionalMovementIndex::default().to_string(), "DMI(14)");
    assert_eq!(DirectionalMovementIndex::new(5).unwrap().to_string(), "DMI(5)");
    assert_eq!(DirectionalMovementIndex::default().period(), 14);
}

#[test]
fn directional_movement_index_phases_for_period_three() {
    let mut dmi = DirectionalMovementIndex::new(3).unwrap();
    assert_eq!(dmi.next(), (TrueRangeStep::First, DmiStep::First));
    assert_eq!(dmi.next(), directional(DmSmoothing::Accumulate, AdxStep::Pending));
    assert_eq!(dmi.next(), directional(DmSmoothing::Accumulate, AdxStep::Pending));
    assert_eq!(
        dmi.next(),
        directional(DmSmoothing::Accumulate, AdxStep::Warmup { count: 1, completes: false })
    );
    assert_eq!(
        dmi.next(),
        directional(DmSmoothing::Smooth, AdxStep::Warmup { count: 2, completes: false })
    );
    assert_eq!(
        dmi.next(),
        directional(DmSmoothing::Smooth, AdxStep::Warmup { count: 3, completes: true })
    );
    for _ in 0..20 {
        assert_eq!(dmi.next(), directional(DmSmoothing::Smooth, AdxStep::Smooth));
    }
}

#[test]
fn directional_movement_index_phases_for_period_one() {
    let mut dmi = DirectionalMovementIndex::new(1).unwrap();
    assert_eq!(dmi.next(), (TrueRangeStep::First, DmiStep::First));
    assert_eq!(
        dmi.next(),
        directional(DmSmoothing::Accumulate, AdxStep::Warmup { count: 1, completes: true })
    );
    assert_eq!(dmi.next(), directional(DmSmoothing::Smooth, AdxStep::Smooth));
}

#[test]
fn directional_movement_index_adx_pending_during_dm_tr_warmup() {
    let mut dmi = DirectionalMovementIndex::new(14).unwrap();
    for i in 0..14 {
        let (_, step) = dmi.next();
        match step {
            DmiStep::First => assert_eq!(i, 0),
            DmiStep::Directional { adx, .. } => assert_eq!(adx, AdxStep::Pending, "bar {i}"),
        }
    }
    assert_eq!(
        dmi.next(),
        directional(DmSmoothing::Accumulate, AdxStep::Warmup { count: 1, completes: false })
    );
}

#[test]
fn directional_movement_index_adx_initialized_once_on_long_series() {
    let mut dmi = DirectionalMovementIndex::new(14).unwrap();
    let mut completions = 0;
    for i in 0..1000 {
        let (_, step) = dmi.next();
        if let DmiStep::Directional { adx: AdxStep::Warmup { count, completes }, .. } = step {
            assert!(count >= 1 && count <= 14);
            assert_eq!(count, i - 14 + 1);
            if completes {
                completions += 1;
                assert_eq!(i, 27);
            }
        }
        if i >= 28 {
            assert_eq!(step, DmiStep::Directional { smoothing: DmSmoothing::Smooth, adx: AdxStep::Smooth });
        }
    }
    assert_eq!(completions, 1);
}

#[test]
fn directional_movement_index_reset_reproduces_steps() {
    let mut dmi = DirectionalMovementIndex::new(3).unwrap();
    let first: Vec<_> = (0..7).map(|_| dmi.next()).collect();
    dmi.reset();
    let second: Vec<_> = (0..7).map(|_| dmi.next()).collect();
    assert_eq!(first, second);
}

#[test]
fn directional_movement_index_from_parts_round_trips() {
    let mut dmi = DirectionalMovementIndex::new(4).unwrap();
    for _ in 0..6 {
        dmi.next();
    }
    let (tr, counters) = dmi.parts();
    let mut restored = DirectionalMovementIndex::from_parts(4, tr, counters).unwrap();
    for _ in 0..10 {
        assert_eq!(restored.next(), dmi.next());
    }
}

#[test]
fn directional_movement_index_resumes_state_saved_without_dx_count() {
    // Sums complete, ADX not set, and no DX count saved (it reads as zero).
    let legacy = DmiCounters {
        has_prev: true,
        count: 4,
        sm_initialized: true,
        dx_count: 0,
        adx_initialized: false,
    };
    let mut restored = DirectionalMovementIndex::from_parts(4, TrueRange::from_parts(true), legacy)
        .unwrap();
    assert_eq!(
        restored.next(),
        directional(DmSmoothing::Smooth, AdxStep::Warmup { count: 1, completes: false })
    );

    // It then goes on as an indicator that has seen `period + 1` bars.
    let mut reference = DirectionalMovementIndex::new(4).unwrap();
    for _ in 0..5 {
        reference.next();
    }
    assert_eq!(restored.parts().1, reference.parts().1);
    for _ in 0..10 {
        assert_eq!(restored.next(), reference.next());
    }
}

#[test]
fn directional_movement_index_from_parts_refuses_only_overflowing_counters() {
    let tr = TrueRange::from_parts(true);
    let full_count = DmiCounters {
        has_prev: true,
        count: usize::MAX,
        sm_initialized: false,
        dx_count: 0,
        adx_initialized: false,
    };
    assert!(DirectionalMovementIndex::from_parts(4, tr, full_count).is_none());
    let full_dx = DmiCounters {
        has_prev: true,
        count: 4,
        sm_initialized: true,
        dx_count: usize::MAX,
        adx_initialized: false,
    };
    assert!(DirectionalMovementIndex::from_parts(4, tr, full_dx).is_none());

    let fresh = DmiCounters {
        has_prev: false,
        count: 0,
        sm_initialized: false,
        dx_count: 0,
        adx_initialized: false,
    };
    assert!(DirectionalMovementIndex::from_parts(4, TrueRange::new(), fresh).is_some());
    // A saved period of zero, or a true range ahead of the counters, is taken
    // as it is.
    let mut zero = DirectionalMovementIndex::from_parts(0, TrueRange::new(), fresh).unwrap();
    assert_eq!(zero.period(), 0);
    assert_eq!(zero.next(), (TrueRangeStep::First, DmiStep::First));
    assert_eq!(
        zero.next(),
        directional(DmSmoothing::Accumulate, AdxStep::Warmup { count: 1, completes: true })
    );
    let mut ahead = DirectionalMovementIndex::from_parts(4, tr, fresh).unwrap();
    assert_eq!(ahead.next(), (TrueRangeStep::WithPrevious, DmiStep::First));
}
