use cyrfix::detect::fix_mojibake;

#[test]
fn round_trip_example() {
    let fixed = fix_mojibake("Ëüâèöà ðîêà", 200);
    assert_eq!(fixed, Some("Львица рока".to_string()));
}

#[test]
fn round_trip_trims_surrounding_whitespace() {
    let fixed = fix_mojibake(" Ëüâèöà ðîêà ", 200);
    assert_eq!(fixed, Some("Львица рока".to_string()));
}

#[test]
fn diacritic_suppression_french() {
    assert_eq!(fix_mojibake("Année française", 200), None);
}

#[test]
fn diacritic_suppression_german() {
    assert_eq!(fix_mojibake("Über alles", 200), None);
}

#[test]
fn conservative_on_cyrillic_text() {
    assert_eq!(fix_mojibake("Львица рока", 200), None);
    assert_eq!(fix_mojibake("Львица рока", 0), None);
    assert_eq!(fix_mojibake("Львица рока", -1000), None);
}

#[test]
fn conservative_on_mixed_text() {
    assert_eq!(fix_mojibake("abc Привет xyz", 200), None);
}

#[test]
fn idempotent_after_repair() {
    let fixed = fix_mojibake("Ëüâèöà ðîêà", 200).unwrap();
    assert_eq!(fix_mojibake(&fixed, 200), None);
}

#[test]
fn threshold_monotone_on_example() {
    let at_default = fix_mojibake("Ëüâèöà ðîêà", 200);
    assert!(at_default.is_some());
    assert_eq!(fix_mojibake("Ëüâèöà ðîêà", 0), at_default);
    assert_eq!(fix_mojibake("Ëüâèöà ðîêà", 100), at_default);
}

#[test]
fn high_threshold_removes_repair() {
    // The example scores 3600 thousandths over 11 characters, so the
    // decision flips between thresholds of 327 and 328 thousandths.
    assert_eq!(fix_mojibake("Ëüâèöà ðîêà", 327), Some("Львица рока".to_string()));
    assert_eq!(fix_mojibake("Ëüâèöà ðîêà", 328), None);
    assert_eq!(fix_mojibake("Ëüâèöà ðîêà", 900), None);
}

#[test]
fn empty_text_never_repaired() {
    assert_eq!(fix_mojibake("", 200), None);
    assert_eq!(fix_mojibake("", -1000), None);
}

#[test]
fn whitespace_only_never_repaired() {
    assert_eq!(fix_mojibake("   ", 200), None);
}

#[test]
fn plain_ascii_not_repaired_at_default() {
    assert_eq!(fix_mojibake("Hello World", 200), None);
}
