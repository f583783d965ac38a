use base64::Engine;
use bgremove::codec::{accept_decoded, decode_envelope, image_to_base64, ImageKind, Raster};
use bgremove::error::{ErrorKind, ImageError};

fn decode_pixels(kind: ImageKind, bytes: &[u8]) -> Result<Raster, String> {
    let format = match kind {
        ImageKind::Jpeg => image::ImageFormat::Jpeg,
        ImageKind::Png => image::ImageFormat::Png,
        ImageKind::WebP => image::ImageFormat::WebP,
    };
    image::load_from_memory_with_format(bytes, format)
        .map(|img| {
            let rgba = img.to_rgba8();
            Raster { width: rgba.width(), height: rgba.height(), pixels: rgba.into_raw() }
        })
        .map_err(|e| e.to_string())
}

fn base64_to_image(envelope: &str) -> Result<Raster, ImageError> {
    let (kind, bytes) = decode_envelope(envelope)?;
    accept_decoded(decode_pixels(kind, &bytes))
}

fn envelope(tag: &str, bytes: &[u8]) -> String {
    format!("{};base64,{}", tag, base64::engine::general_purpose::STANDARD.encode(bytes))
}

fn solid_jpeg(side: u32) -> Vec<u8> {
    let img = image::RgbImage::from_pixel(side, side, image::Rgb([200, 30, 40]));
    let mut out = Vec::new();
    image::DynamicImage::ImageRgb8(img)
        .write_to(&mut std::io::Cursor::new(&mut out), image::ImageFormat::Jpeg)
        .unwrap();
    out
}

fn solid_png(width: u32, height: u32) -> Vec<u8> {
    let img = image::RgbaImage::from_pixel(width, height, image::Rgba([10, 20, 30, 255]));
    let mut out = Vec::new();
    image::DynamicImage::ImageRgba8(img)
        .write_to(&mut std::io::Cursor::new(&mut out), image::ImageFormat::Png)
        .unwrap();
    out
}

#[test]
fn jpeg_square_decodes_to_its_size() {
    let img = base64_to_image(&envelope("data:image/jpeg", &solid_jpeg(16))).unwrap();
    assert_eq!(img.width, 16);
    assert_eq!(img.height, 16);
    assert_eq!(img.pixels.len(), 16 * 16 * 4);
}

#[test]
fn jpeg_square_encodes_as_png_envelope() {
    let img = base64_to_image(&envelope("data:image/jpeg", &solid_jpeg(16))).unwrap();
    let out = image_to_base64(&img).unwrap();
    assert!(out.starts_with("data:image/png;base64,"));
    let payload = &out["data:image/png;base64,".len()..];
    let png = base64::engine::general_purpose::STANDARD.decode(payload).unwrap();
    assert_eq!(&png[1..4], b"PNG");
}

#[test]
fn decode_encode_decode_keeps_size_jpeg() {
    let first = base64_to_image(&envelope("data:image/jpeg", &solid_jpeg(24))).unwrap();
    let again = base64_to_image(&image_to_base64(&first).unwrap()).unwrap();
    assert_eq!((again.width, again.height), (24, 24));
}

#[test]
fn decode_encode_decode_keeps_png_exactly() {
    let first = base64_to_image(&envelope("data:image/png", &solid_png(7, 3))).unwrap();
    assert_eq!((first.width, first.height), (7, 3));
    assert_eq!(&first.pixels[0..4], &[10, 20, 30, 255]);
    let again = base64_to_image(&image_to_base64(&first).unwrap()).unwrap();
    assert_eq!((again.width, again.height), (7, 3));
    assert_eq!(again.pixels, first.pixels);
}

#[test]
fn envelope_without_delimiter_is_malformed() {
    let e = base64_to_image("not-an-envelope").unwrap_err();
    assert_eq!(e.kind, ErrorKind::MalformedEnvelope);
    assert_eq!(e.to_reply().code, 400);
}

#[test]
fn empty_envelope_is_malformed() {
    assert_eq!(base64_to_image("").unwrap_err().kind, ErrorKind::MalformedEnvelope);
}

#[test]
fn unknown_tag_is_unsupported() {
    let e = base64_to_image(&envelope("data:image/gif", &solid_png(2, 2))).unwrap_err();
    assert_eq!(e.kind, ErrorKind::UnsupportedFormat);
    assert_eq!(e.to_reply().code, 400);
}

#[test]
fn misspelled_and_absent_tags_are_unsupported() {
    let png = solid_png(2, 2);
    assert_eq!(base64_to_image(&envelope("data:image/PNG", &png)).unwrap_err().kind, ErrorKind::UnsupportedFormat);
    assert_eq!(base64_to_image(&envelope("", &png)).unwrap_err().kind, ErrorKind::UnsupportedFormat);
    assert_eq!(base64_to_image(&envelope("image/png", &png)).unwrap_err().kind, ErrorKind::UnsupportedFormat);
}

#[test]
fn tag_is_checked_before_payload() {
    let e = base64_to_image("data:image/gif;base64,@@@@").unwrap_err();
    assert_eq!(e.kind, ErrorKind::UnsupportedFormat);
}

#[test]
fn invalid_base64_characters_are_rejected() {
    let e = base64_to_image("data:image/png;base64,@@@@").unwrap_err();
    assert_eq!(e.kind, ErrorKind::Base64DecodeError);
    assert!(e.message.starts_with("base64 decoding failed: "));
    assert_eq!(e.to_reply().code, 400);
}

#[test]
fn missing_padding_is_rejected() {
    let e = base64_to_image("data:image/png;base64,AAA").unwrap_err();
    assert_eq!(e.kind, ErrorKind::Base64DecodeError);
}

#[test]
fn bytes_that_are_not_the_declared_format_are_rejected() {
    let e = base64_to_image("data:image/png;base64,AAAA").unwrap_err();
    assert_eq!(e.kind, ErrorKind::ImageDecodeError);
    assert!(e.message.starts_with("image decoding failed: "));
    assert_eq!(e.to_reply().code, 400);
}

#[test]
fn jpeg_bytes_under_png_tag_are_rejected() {
    let e = base64_to_image(&envelope("data:image/png", &solid_jpeg(8))).unwrap_err();
    assert_eq!(e.kind, ErrorKind::ImageDecodeError);
}

#[test]
fn webp_tag_with_non_webp_bytes_is_an_image_error() {
    let e = base64_to_image(&envelope("data:image/webp", &solid_png(2, 2))).unwrap_err();
    assert_eq!(e.kind, ErrorKind::ImageDecodeError);
}

#[test]
fn second_delimiter_makes_payload_invalid() {
    let text = format!("{};base64,trailing", envelope("data:image/png", &solid_png(5, 4)));
    let e = base64_to_image(&text).unwrap_err();
    assert_eq!(e.kind, ErrorKind::Base64DecodeError);
}

#[test]
fn whitespace_in_payload_is_rejected() {
    let mut text = envelope("data:image/png", &solid_png(5, 4));
    text.insert(30, ' ');
    assert_eq!(base64_to_image(&text).unwrap_err().kind, ErrorKind::Base64DecodeError);
}

#[test]
fn url_safe_alphabet_is_rejected() {
    assert_eq!(base64_to_image("data:image/png;base64,ab-_").unwrap_err().kind, ErrorKind::Base64DecodeError);
}

#[test]
fn png_envelope_payload_is_padded_standard_base64() {
    let img = Raster { width: 5, height: 3, pixels: (0..60).map(|i| i as u8).collect() };
    let out = image_to_base64(&img).unwrap();
    let payload = &out["data:image/png;base64,".len()..];
    assert_eq!(payload.len() % 4, 0);
    assert!(payload.bytes().all(|b| b.is_ascii_alphanumeric() || b == b'+' || b == b'/' || b == b'='));
    let back = base64_to_image(&out).unwrap();
    assert_eq!((back.width, back.height), (5, 3));
    assert_eq!(back.pixels, img.pixels);
}

#[test]
fn rejections_carry_a_message() {
    for text in ["not-an-envelope", "data:image/gif;base64,AAAA", "data:image/png;base64,@@@@", "data:image/png;base64,AAAA"] {
        let r = base64_to_image(text).unwrap_err().to_reply();
        assert_eq!(r.code, 400);
        assert!(!r.message.is_empty());
    }
}

#[test]
fn zero_sized_raster_fails_to_encode() {
    let img = Raster { width: 0, height: 0, pixels: Vec::new() };
    let e = image_to_base64(&img).unwrap_err();
    assert_eq!(e.kind, ErrorKind::ImageEncodeError);
    assert_eq!(e.to_reply().code, 500);
}

#[test]
fn envelope_yields_format_and_payload_bytes() {
    let (kind, bytes) = decode_envelope("data:image/webp;base64,AAEC").unwrap();
    assert_eq!(kind, ImageKind::WebP);
    assert_eq!(bytes, vec![0, 1, 2]);
    let (kind, bytes) = decode_envelope("data:image/jpeg;base64,").unwrap();
    assert_eq!(kind, ImageKind::Jpeg);
    assert!(bytes.is_empty());
}

#[test]
fn png_envelope_payload_is_the_png_file() {
    let img = Raster { width: 2, height: 2, pixels: vec![255; 16] };
    let (kind, file) = decode_envelope(&image_to_base64(&img).unwrap()).unwrap();
    assert_eq!(kind, ImageKind::Png);
    assert_eq!(&file[0..8], &[137, 80, 78, 71, 13, 10, 26, 10]);
}

#[test]
fn decoder_refusal_is_an_image_error() {
    let e = accept_decoded(Err("the decoder panicked".to_string())).unwrap_err();
    assert_eq!(e.kind, ErrorKind::ImageDecodeError);
    assert_eq!(e.message, "image decoding failed: the decoder panicked");
    assert_eq!(e.to_reply().code, 400);
}

#[test]
fn malformed_decoder_output_is_an_image_error() {
    let img = Raster { width: 3, height: 1, pixels: vec![0; 4] };
    assert_eq!(accept_decoded(Ok(img)).unwrap_err().kind, ErrorKind::ImageDecodeError);
}

#[test]
fn well_formed_decoder_output_is_kept() {
    let img = Raster { width: 1, height: 2, pixels: vec![1, 2, 3, 4, 5, 6, 7, 8] };
    let out = accept_decoded(Ok(img.clone())).unwrap();
    assert_eq!((out.width, out.height, out.pixels), (1, 2, img.pixels));
}
