use cgip::image::build_image_data_uri;
use cgip::image::is_vision_model;
use cgip::image::mime_from_extension;
use cgip::text::u64_to_string;

#[test]
fn vision_models_are_recognized() {
    assert!(is_vision_model("gpt-4o"));
    assert!(is_vision_model("gpt-4o-mini"));
    assert!(is_vision_model("gpt-4.1"));
    assert!(is_vision_model("gpt-4-vision-preview"));
    assert!(is_vision_model("gpt-4-turbo"));
    assert!(is_vision_model("gpt-4"));
    assert!(!is_vision_model("gpt-3.5-turbo"));
    assert!(!is_vision_model("o1"));
}

#[test]
fn extensions_map_to_mime_types_with_jpeg_fallback() {
    assert_eq!(mime_from_extension("png"), "image/png");
    assert_eq!(mime_from_extension("jpg"), "image/jpeg");
    assert_eq!(mime_from_extension("jpeg"), "image/jpeg");
    assert_eq!(mime_from_extension("gif"), "image/gif");
    assert_eq!(mime_from_extension("webp"), "image/webp");
    assert_eq!(mime_from_extension("bmp"), "image/jpeg");
}

#[test]
fn data_uri_carries_the_standard_base64_payload() {
    let bytes = b"abc".to_vec();
    let uri = build_image_data_uri(&bytes, "png");
    assert_eq!(uri, "data:image/png;base64,YWJj");
    let bytes = b"a".to_vec();
    let uri = build_image_data_uri(&bytes, "gif");
    assert_eq!(uri, "data:image/gif;base64,YQ==");
}

#[test]
fn numbers_render_in_decimal() {
    assert_eq!(u64_to_string(0), "0");
    assert_eq!(u64_to_string(7), "7");
    assert_eq!(u64_to_string(10), "10");
    assert_eq!(u64_to_string(90210), "90210");
}
