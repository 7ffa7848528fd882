use images_rs::format::FormatHint;
use images_rs::format::resolve_format_hint;

#[test]
fn upper_case_jpg_is_jpeg() {
    assert_eq!(resolve_format_hint("x.JPG"), FormatHint::Jpeg);
}

#[test]
fn jpeg_long_extension_is_jpeg() {
    assert_eq!(resolve_format_hint("x.jpeg"), FormatHint::Jpeg);
}

#[test]
fn no_extension_is_unknown() {
    assert_eq!(resolve_format_hint("x"), FormatHint::Unknown);
}

#[test]
fn unrecognized_extension_is_unknown() {
    assert_eq!(resolve_format_hint("x.unknownext"), FormatHint::Unknown);
}

#[test]
fn every_table_entry_resolves() {
    assert_eq!(resolve_format_hint("a.avif"), FormatHint::Avif);
    assert_eq!(resolve_format_hint("a.jpg"), FormatHint::Jpeg);
    assert_eq!(resolve_format_hint("a.png"), FormatHint::Png);
    assert_eq!(resolve_format_hint("a.webp"), FormatHint::Webp);
    assert_eq!(resolve_format_hint("a.gif"), FormatHint::Gif);
    assert_eq!(resolve_format_hint("a.tiff"), FormatHint::Tiff);
    assert_eq!(resolve_format_hint("a.tif"), FormatHint::Tiff);
    assert_eq!(resolve_format_hint("a.bmp"), FormatHint::Bmp);
}

#[test]
fn mixed_case_resolves() {
    assert_eq!(resolve_format_hint("dir/photo.PnG"), FormatHint::Png);
    assert_eq!(resolve_format_hint("shot.TIFF"), FormatHint::Tiff);
    assert_eq!(resolve_format_hint("anim.Gif"), FormatHint::Gif);
}

#[test]
fn directories_do_not_leak_an_extension() {
    assert_eq!(resolve_format_hint("dir.png/file"), FormatHint::Unknown);
    assert_eq!(resolve_format_hint("some.dir/archive"), FormatHint::Unknown);
}

#[test]
fn only_the_last_extension_counts() {
    assert_eq!(resolve_format_hint("archive.tar.gz"), FormatHint::Unknown);
    assert_eq!(resolve_format_hint("layers.gz.png"), FormatHint::Png);
}

#[test]
fn hidden_files_have_no_extension() {
    assert_eq!(resolve_format_hint(".png"), FormatHint::Unknown);
    assert_eq!(resolve_format_hint("dir/.png"), FormatHint::Unknown);
    assert_eq!(resolve_format_hint(".config.png"), FormatHint::Png);
}

#[test]
fn degenerate_names_are_unknown() {
    assert_eq!(resolve_format_hint(""), FormatHint::Unknown);
    assert_eq!(resolve_format_hint("x."), FormatHint::Unknown);
    assert_eq!(resolve_format_hint("x.pngx"), FormatHint::Unknown);
    assert_eq!(resolve_format_hint("png"), FormatHint::Unknown);
}
