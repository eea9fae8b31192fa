use holderplace::canvas::Canvas;
use holderplace::color::Color;
use holderplace::encode::{encode_canvas, OutputFormat};
use holderplace::layout::{text_origin, text_scale};
use holderplace::request::resolve;

const RED: Color = Color { r: 255, g: 0, b: 0, a: 255 };

#[test]
fn filled_canvas_has_requested_pixels() {
    let c = Canvas::filled(3, 2, RED);
    assert_eq!(c.width(), 3);
    assert_eq!(c.height(), 2);
    for y in 0..2 {
        for x in 0..3 {
            assert_eq!(c.pixel(x, y), RED);
        }
    }
    let bytes = c.into_rgba();
    assert_eq!(bytes.len(), 24);
    assert_eq!(&bytes[0..4], &[255, 0, 0, 255]);
}

#[test]
fn canvas_round_trips_through_raw_bytes() {
    let c = Canvas::filled(4, 4, RED);
    let bytes = c.into_rgba();
    let c2 = Canvas::from_rgba(4, 4, bytes).unwrap();
    assert_eq!(c2.pixel(3, 3), RED);
    assert!(Canvas::from_rgba(4, 4, vec![0u8; 63]).is_none());
    assert!(Canvas::from_rgba(4, 4, vec![0u8; 65]).is_none());
}

#[test]
fn text_scale_is_tenth_of_smaller_dimension_with_floor() {
    assert_eq!(text_scale(200, 150), 15);
    assert_eq!(text_scale(150, 200), 15);
    assert_eq!(text_scale(100, 100), 12);
    assert_eq!(text_scale(119, 400), 12);
    assert_eq!(text_scale(120, 400), 12);
    assert_eq!(text_scale(130, 400), 13);
    assert_eq!(text_scale(1200, 800), 80);
    assert_eq!(text_scale(5, 5), 12);
}

#[test]
fn text_origin_centers_the_text_box() {
    assert_eq!(text_origin(200, 150, 100, 50), (50, 50));
    assert_eq!(text_origin(80, 80, 100, 20), (-10, 30));
    assert_eq!(text_origin(5, 5, 2, 2), (1, 1));
    assert_eq!(text_origin(2, 2, 5, 5), (-1, -1));
    assert_eq!(text_origin(10, 10, 10, 10), (0, 0));
}

fn decode(bytes: &[u8]) -> image::DynamicImage {
    image::load_from_memory(bytes).expect("encoded bytes should decode")
}

#[test]
fn png_round_trips_dimensions_and_color() {
    let c = Canvas::filled(200, 150, RED);
    let bytes = encode_canvas(&c, OutputFormat::Png).unwrap();
    let img = decode(&bytes);
    assert_eq!(img.width(), 200);
    assert_eq!(img.height(), 150);
    let rgba = img.to_rgba8();
    assert_eq!(rgba.get_pixel(0, 0).0, [255, 0, 0, 255]);
    assert_eq!(rgba.get_pixel(199, 149).0, [255, 0, 0, 255]);
}

#[test]
fn bmp_round_trips_dimensions_and_color() {
    let c = Canvas::filled(31, 17, RED);
    let bytes = encode_canvas(&c, OutputFormat::Bmp).unwrap();
    let img = decode(&bytes);
    assert_eq!(img.width(), 31);
    assert_eq!(img.height(), 17);
    assert_eq!(img.to_rgba8().get_pixel(30, 16).0, [255, 0, 0, 255]);
}

#[test]
fn gif_round_trips_dimensions_and_color() {
    let c = Canvas::filled(12, 9, RED);
    let bytes = encode_canvas(&c, OutputFormat::Gif).unwrap();
    let img = decode(&bytes);
    assert_eq!(img.width(), 12);
    assert_eq!(img.height(), 9);
    assert_eq!(img.to_rgba8().get_pixel(0, 0).0, [255, 0, 0, 255]);
}

#[test]
fn jpeg_round_trips_dimensions() {
    let c = Canvas::filled(100, 100, RED);
    let bytes = encode_canvas(&c, OutputFormat::Jpeg).unwrap();
    let img = decode(&bytes);
    assert_eq!(img.width(), 100);
    assert_eq!(img.height(), 100);
}

#[test]
fn webp_round_trips_dimensions() {
    let c = Canvas::filled(80, 80, RED);
    let bytes = encode_canvas(&c, OutputFormat::Webp).unwrap();
    let img = decode(&bytes);
    assert_eq!(img.width(), 80);
    assert_eq!(img.height(), 80);
}

#[test]
fn encoders_reject_unrepresentable_dimensions() {
    let empty = Canvas::filled(0, 5, RED);
    let e = encode_canvas(&empty, OutputFormat::Png).unwrap_err();
    assert_eq!(e.format, OutputFormat::Png);
    assert!(e.message().contains("png"));

    let empty = Canvas::filled(5, 0, RED);
    assert!(encode_canvas(&empty, OutputFormat::Jpeg).is_err());
    assert!(encode_canvas(&empty, OutputFormat::Webp).is_err());

    let wide = Canvas::filled(70000, 1, RED);
    assert!(encode_canvas(&wide, OutputFormat::Jpeg).is_err());
    assert!(encode_canvas(&wide, OutputFormat::Gif).is_err());
    assert!(encode_canvas(&wide, OutputFormat::Webp).is_err());
    assert!(encode_canvas(&wide, OutputFormat::Png).is_ok());
}

#[test]
fn scenario_default_request_renders_png() {
    let q = resolve(Some(200), Some(150), None, None, None, None, None).unwrap();
    assert_eq!(q.output, "out.png");
    let c = Canvas::filled(q.width, q.height, q.bg);
    let bytes = encode_canvas(&c, q.format).unwrap();
    let img = decode(&bytes);
    assert_eq!(img.width(), 200);
    assert_eq!(img.height(), 150);
    // The default background decodes back exactly from the lossless default
    // format.
    assert_eq!(img.to_rgba8().get_pixel(100, 75).0, [204, 204, 204, 255]);
}

#[test]
fn scenario_jpeg_request_renders_100_by_100() {
    let q = resolve(Some(100), Some(100), None, None, None, Some("jpeg"), Some("test_image.jpg"))
        .unwrap();
    let c = Canvas::filled(q.width, q.height, q.bg);
    let bytes = encode_canvas(&c, q.format).unwrap();
    let img = decode(&bytes);
    assert_eq!(img.width(), 100);
    assert_eq!(img.height(), 100);
}

#[test]
fn scenario_custom_colors_render_80_by_80() {
    let q = resolve(Some(80), Some(80), Some("#ff0000"), Some("#00ff00"), Some("Hello"), None,
        None)
        .unwrap();
    let c = Canvas::filled(q.width, q.height, q.bg);
    let bytes = encode_canvas(&c, q.format).unwrap();
    let img = decode(&bytes);
    assert_eq!(img.width(), 80);
    assert_eq!(img.height(), 80);
    assert_eq!(img.to_rgba8().get_pixel(0, 0).0, [255, 0, 0, 255]);
}
