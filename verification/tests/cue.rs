use cyrfix::cue::cue_new_content;

#[test]
fn valid_utf8_left_untouched() {
    let raw = "REM GENRE \u{0420}\u{043E}\u{043A}\nTITLE Test\n".as_bytes();
    assert_eq!(cue_new_content(raw, false), None);
}

#[test]
fn ascii_left_untouched() {
    assert_eq!(cue_new_content(b"TITLE Test\n", false), None);
}

#[test]
fn legacy_bytes_rewritten() {
    // "Львица рока" in the legacy code page; not valid UTF-8.
    let raw: Vec<u8> = vec![
        0xCB, 0xFC, 0xE2, 0xE8, 0xF6, 0xE0, 0x20, 0xF0, 0xEE, 0xEA, 0xE0,
    ];
    let decision = cue_new_content(&raw, false);
    assert_eq!(decision, Some(("Львица рока".to_string(), false)));
}

#[test]
fn force_rewrites_even_valid_ascii() {
    let decision = cue_new_content(b"TITLE Test\n", true);
    assert_eq!(decision, Some(("TITLE Test\n".to_string(), false)));
}

#[test]
fn force_decodes_legacy_bytes() {
    let raw: Vec<u8> = vec![0xCF, 0xF0, 0xE8, 0xE2, 0xE5, 0xF2];
    let decision = cue_new_content(&raw, true);
    assert_eq!(decision, Some(("Привет".to_string(), false)));
}
