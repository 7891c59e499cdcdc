use dl44::workspace::{
    data_url, format_of_mime, is_supported_extension, is_supported_lower, mime_type_for,
    BitmapContent,
};

#[test]
fn extensions_any_case() {
    assert!(is_supported_extension("PNG"));
    assert!(is_supported_extension("Jpeg"));
    assert!(is_supported_extension("svg"));
    assert!(!is_supported_extension("tiff"));
    assert!(!is_supported_extension(""));
    assert!(!is_supported_lower("PNG"));
}

#[test]
fn media_types() {
    assert_eq!(mime_type_for("jpg"), "image/jpeg");
    assert_eq!(mime_type_for("webp"), "image/webp");
    assert_eq!(mime_type_for("xyz"), "application/octet-stream");
    assert_eq!(format_of_mime("image/gif"), "gif");
    assert_eq!(format_of_mime("weird"), "png");
}

#[test]
fn bitmap_data_urls() {
    assert_eq!(data_url("image/png", b"hi!"), "data:image/png;base64,aGkh");
    assert_eq!(data_url("image/png", b"a"), "data:image/png;base64,YQ==");
    let b = BitmapContent::from_file(2, 3, b"ab", "jpg");
    assert_eq!(b.data_url, "data:image/jpeg;base64,YWI=");
    assert_eq!((b.width, b.height, b.format.as_str()), (2, 3, "jpg"));
    let m = BitmapContent::from_media(1, 1, b"", "image/bmp");
    assert_eq!(m.format, "bmp");
    assert_eq!(m.data_url, "data:image/bmp;base64,");
}
