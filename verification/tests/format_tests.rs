use chromacore::formats::{select_format_index, PixelFormat};

#[test]
fn prefers_rgba8_unorm_when_supported() {
    let supported = vec![
        PixelFormat::Other,
        PixelFormat::Rgba8UnormSrgb,
        PixelFormat::Rgba8Unorm,
        PixelFormat::Rgba8Unorm,
    ];
    assert_eq!(select_format_index(&supported), 2);
}

#[test]
fn falls_back_to_srgb_variant() {
    let supported = vec![PixelFormat::Other, PixelFormat::Rgba8UnormSrgb];
    assert_eq!(select_format_index(&supported), 1);
}

#[test]
fn falls_back_to_reported_default() {
    let supported = vec![PixelFormat::Other, PixelFormat::Other];
    assert_eq!(select_format_index(&supported), 0);
}
