use otlp_setup::layer::{
    apply_new_interest, combine_enabled, max_level_hint, register_callsite_interest, Interest,
    LevelFilter,
};

fn rank(i: Interest) -> u8 {
    match i {
        Interest::Never => 0,
        Interest::Sometimes => 1,
        Interest::Always => 2,
    }
}

fn level_rank(l: LevelFilter) -> u8 {
    match l {
        LevelFilter::Off => 0,
        LevelFilter::Error => 1,
        LevelFilter::Warn => 2,
        LevelFilter::Info => 3,
        LevelFilter::Debug => 4,
        LevelFilter::Trace => 5,
    }
}

#[test]
fn interest_is_lattice_maximum() {
    let answers = [None, Some(Interest::Never), Some(Interest::Sometimes), Some(Interest::Always)];
    for &trace in &answers {
        for &logs in &answers {
            for &metrics in &answers {
                let combined = register_callsite_interest(trace, logs, metrics);
                let expected = [trace, logs, metrics]
                    .iter()
                    .filter_map(|a| *a)
                    .max_by_key(|i| rank(*i))
                    .unwrap_or(Interest::Never);
                assert_eq!(combined, expected, "for {:?}", (trace, logs, metrics));
            }
        }
    }
}

#[test]
fn apply_new_interest_upgrades_only() {
    let mut interest = Interest::Never;
    apply_new_interest(&mut interest, Interest::Sometimes);
    assert_eq!(interest, Interest::Sometimes);
    apply_new_interest(&mut interest, Interest::Never);
    assert_eq!(interest, Interest::Sometimes);
    apply_new_interest(&mut interest, Interest::Always);
    assert_eq!(interest, Interest::Always);
    apply_new_interest(&mut interest, Interest::Sometimes);
    assert_eq!(interest, Interest::Always);
}

#[test]
fn enablement_is_conjunction_of_active() {
    let answers = [None, Some(false), Some(true)];
    for &trace in &answers {
        for &logs in &answers {
            for &metrics in &answers {
                let combined = combine_enabled(trace, logs, metrics);
                let expected =
                    trace.unwrap_or(true) && logs.unwrap_or(true) && metrics.unwrap_or(true);
                assert_eq!(combined, expected, "for {:?}", (trace, logs, metrics));
            }
        }
    }
}

#[test]
fn enablement_is_vacuously_true() {
    assert!(combine_enabled(None, None, None));
}

#[test]
fn level_hint_is_minimum_of_reported() {
    assert_eq!(
        max_level_hint(Some(Some(LevelFilter::Info)), Some(Some(LevelFilter::Error)), None),
        Some(LevelFilter::Error)
    );
    assert_eq!(
        max_level_hint(Some(Some(LevelFilter::Trace)), Some(Some(LevelFilter::Debug)), Some(
            Some(LevelFilter::Warn),
        )),
        Some(LevelFilter::Warn)
    );
    assert_eq!(max_level_hint(Some(Some(LevelFilter::Off)), None, None), Some(LevelFilter::Off));
}

#[test]
fn level_hint_ignores_consumers_without_hint() {
    assert_eq!(
        max_level_hint(Some(None), Some(Some(LevelFilter::Info)), None),
        Some(LevelFilter::Info)
    );
    assert_eq!(max_level_hint(Some(None), Some(None), Some(None)), None);
    assert_eq!(max_level_hint(None, None, None), None);
}

#[test]
fn level_hint_matches_reference_combination() {
    let hints = [
        None,
        Some(None),
        Some(Some(LevelFilter::Off)),
        Some(Some(LevelFilter::Error)),
        Some(Some(LevelFilter::Info)),
        Some(Some(LevelFilter::Trace)),
    ];
    for &trace in &hints {
        for &logs in &hints {
            for &metrics in &hints {
                let combined = max_level_hint(trace, logs, metrics);
                let expected = [trace, logs, metrics]
                    .iter()
                    .filter_map(|a| a.flatten())
                    .min_by_key(|l| level_rank(*l));
                assert_eq!(combined, expected, "for {:?}", (trace, logs, metrics));
            }
        }
    }
}
