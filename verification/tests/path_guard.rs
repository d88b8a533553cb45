use fontserve::path_guard::{determine_font_mime_type, file_name_string, is_valid_path};

#[test]
fn absolute_allowed_extensions_are_servable() {
    assert!(is_valid_path("/tmp/test.ttf"));
    assert!(is_valid_path("/tmp/test.TTF"));
    assert!(is_valid_path("/usr/share/fonts/a.otf"));
    assert!(is_valid_path("/a/b.woff"));
    assert!(is_valid_path("/a/b.WOFF2"));
    assert!(is_valid_path("/c/collection.ttc"));
}

#[test]
fn disallowed_extensions_are_rejected() {
    assert!(!is_valid_path("/tmp/test.pdf"));
    assert!(!is_valid_path("/tmp/test"));
    assert!(!is_valid_path("/tmp/test."));
    assert!(!is_valid_path("/tmp/.ttf"));
    assert!(!is_valid_path("/tmp/test.ttfx"));
    assert!(!is_valid_path("/tmp/test.woff3"));
    assert!(!is_valid_path(""));
}

#[test]
fn relative_paths_are_rejected_regardless_of_extension() {
    assert!(!is_valid_path("relative.ttf"));
    assert!(!is_valid_path("fonts/a.otf"));
    assert!(!is_valid_path("./a.woff"));
    assert!(!is_valid_path("../a.woff2"));
    assert!(!is_valid_path("C:\\WINDOWS\\FONTS\\MSYHBD.TTC"));
}

#[test]
fn mime_types_cover_all_six_outputs() {
    assert_eq!(determine_font_mime_type("/a/x.ttf"), "font/ttf");
    assert_eq!(determine_font_mime_type("/a/x.OTF"), "font/otf");
    assert_eq!(determine_font_mime_type("/a/x.woff"), "application/font-woff");
    assert_eq!(determine_font_mime_type("/a/x.WoFf2"), "application/font-woff2");
    assert_eq!(determine_font_mime_type("/a/x.ttc"), "font/collection");
    assert_eq!(determine_font_mime_type("/a/x.txt"), "application/octet-stream");
    assert_eq!(determine_font_mime_type("/a/x"), "application/octet-stream");
    assert_eq!(determine_font_mime_type("relative.ttf"), "font/ttf");
    assert_eq!(determine_font_mime_type(""), "application/octet-stream");
}

#[test]
fn file_name_is_last_segment() {
    assert_eq!(file_name_string("/usr/share/fonts/DejaVu.ttf"), "DejaVu.ttf");
    assert_eq!(file_name_string("DejaVu.ttf"), "DejaVu.ttf");
    assert_eq!(file_name_string("/trailing/"), "");
}
