use cyrfix::classify::classify_extension;
use cyrfix::classify::FileKind;

#[test]
fn audio_extensions_route_to_audio() {
    for ext in ["mp3", "flac", "m4a", "mp4", "ogg", "wav"] {
        assert_eq!(classify_extension(ext), FileKind::Audio);
    }
}

#[test]
fn classification_ignores_case() {
    assert_eq!(classify_extension("MP3"), FileKind::Audio);
    assert_eq!(classify_extension("FlAc"), FileKind::Audio);
    assert_eq!(classify_extension("WAV"), FileKind::Audio);
    assert_eq!(classify_extension("CUE"), FileKind::Cue);
    assert_eq!(classify_extension("Cue"), FileKind::Cue);
}

#[test]
fn cue_extension_routes_to_cue() {
    assert_eq!(classify_extension("cue"), FileKind::Cue);
}

#[test]
fn other_extensions_are_ignored() {
    assert_eq!(classify_extension("txt"), FileKind::Other);
    assert_eq!(classify_extension("jpg"), FileKind::Other);
    assert_eq!(classify_extension("mp33"), FileKind::Other);
    assert_eq!(classify_extension("mp"), FileKind::Other);
    assert_eq!(classify_extension(""), FileKind::Other);
}
