use refxpp::variant::{has_relax, select_variant, GameKind, Variant, RELAX};
use refxpp::error::{CalcError, STATUS_OK};

#[test]
fn known_modes_without_relax_are_generic() {
    assert_eq!(select_variant(0, 0), Ok(Variant::Generic(GameKind::Osu)));
    assert_eq!(select_variant(1, 0), Ok(Variant::Generic(GameKind::Taiko)));
    assert_eq!(select_variant(2, 8), Ok(Variant::Generic(GameKind::Catch)));
    assert_eq!(select_variant(3, 64), Ok(Variant::Generic(GameKind::Mania)));
}

#[test]
fn standard_with_relax_is_relax() {
    assert_eq!(select_variant(0, RELAX), Ok(Variant::Relax));
    assert_eq!(select_variant(0, 128 | 8 | 64), Ok(Variant::Relax));
    assert_eq!(select_variant(0, u32::MAX), Ok(Variant::Relax));
}

#[test]
fn relax_flag_outside_standard_stays_generic() {
    assert_eq!(select_variant(1, RELAX), Ok(Variant::Generic(GameKind::Taiko)));
    assert_eq!(select_variant(3, RELAX | 8), Ok(Variant::Generic(GameKind::Mania)));
}

#[test]
fn unknown_mode_is_refused() {
    assert_eq!(select_variant(99, 0), Err(CalcError::InvalidMode { mode: 99 }));
    assert_eq!(select_variant(4, RELAX), Err(CalcError::InvalidMode { mode: 4 }));
    assert_eq!(select_variant(u32::MAX, 0), Err(CalcError::InvalidMode { mode: u32::MAX }));
}

#[test]
fn relax_flag_detection() {
    assert!(has_relax(128));
    assert!(has_relax(136));
    assert!(!has_relax(127));
    assert!(!has_relax(0));
    assert!(!has_relax(256));
}

#[test]
fn mode_numbers_round_trip() {
    for n in 0..4u32 {
        let k = GameKind::from_number(n).unwrap();
        assert_eq!(k.number(), n);
    }
    assert_eq!(GameKind::from_number(2), Some(GameKind::Catch));
    assert_eq!(GameKind::from_number(4), None);
}

#[test]
fn error_codes_are_distinct_and_not_ok() {
    let codes = [
        CalcError::InvalidPath.code(),
        CalcError::InvalidBeatmap.code(),
        CalcError::InvalidMode { mode: 7 }.code(),
        CalcError::AccuracyOutOfRange.code(),
        CalcError::CalculationFailed.code(),
    ];
    assert_eq!(codes, [1, 2, 3, 4, 5]);
    for c in codes {
        assert_ne!(c, STATUS_OK);
    }
}
