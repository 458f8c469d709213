use face_crop::batch::is_supported_extension;

#[test]
fn image_extensions_selected() {
    assert!(is_supported_extension(b"jpg"));
    assert!(is_supported_extension(b"jpeg"));
    assert!(is_supported_extension(b"png"));
}

#[test]
fn extension_case_is_ignored() {
    assert!(is_supported_extension(b"JPG"));
    assert!(is_supported_extension(b"JpEg"));
    assert!(is_supported_extension(b"PNG"));
}

#[test]
fn other_extensions_ignored() {
    // A text file in the input directory is ignored entirely.
    assert!(!is_supported_extension(b"txt"));
    assert!(!is_supported_extension(b"gif"));
    assert!(!is_supported_extension(b"jpgx"));
    assert!(!is_supported_extension(b"jp"));
    assert!(!is_supported_extension(b""));
    assert!(!is_supported_extension(b"jpg "));
}
