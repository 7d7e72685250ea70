use fuurin::is_playable_extension;

#[test]
fn playable_extensions_are_accepted() {
    assert!(is_playable_extension("ogg"));
    assert!(is_playable_extension("mp3"));
    assert!(is_playable_extension("wav"));
}

#[test]
fn other_extensions_are_rejected() {
    assert!(!is_playable_extension("txt"));
    assert!(!is_playable_extension("flac"));
    assert!(!is_playable_extension(""));
    assert!(!is_playable_extension("OGG"));
    assert!(!is_playable_extension("mp3 "));
}
