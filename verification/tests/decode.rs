use image_resize::decode::{accept_raster, decode, sniff, SourceFormat};
use image_resize::encode::encode;
use image_resize::error::PipelineError;
use image_resize::format::OutputFormat;
use image_resize::raster::{buffer_fills, DecodedImage};

fn mosaic_pixels() -> Vec<u8> {
    vec![
        255, 0, 0, 255, 0, 255, 0, 255, //
        0, 0, 255, 255, 10, 20, 30, 128,
    ]
}

fn file_of(format: image::ImageFormat, width: u32, height: u32, pixels: Vec<u8>) -> Vec<u8> {
    let picture = image::RgbaImage::from_raw(width, height, pixels).unwrap();
    let mut file = std::io::Cursor::new(Vec::new());
    image::DynamicImage::ImageRgba8(picture)
        .write_to(&mut file, format)
        .unwrap();
    file.into_inner()
}

#[test]
fn a_png_is_decoded_to_its_pixels() {
    let file = file_of(image::ImageFormat::Png, 2, 2, mosaic_pixels());
    let decoded = decode(&file).unwrap();
    assert_eq!(decoded.width(), 2);
    assert_eq!(decoded.height(), 2);
    assert_eq!(decoded.pixels(), &mosaic_pixels());
}

#[test]
fn a_bmp_is_decoded_to_its_pixels() {
    let opaque = vec![1, 2, 3, 255, 4, 5, 6, 255, 7, 8, 9, 255];
    let file = file_of(image::ImageFormat::Bmp, 3, 1, opaque.clone());
    let decoded = decode(&file).unwrap();
    assert_eq!((decoded.width(), decoded.height()), (3, 1));
    assert_eq!(decoded.pixels(), &opaque);
}

#[test]
fn a_gif_is_decoded_with_its_dimensions() {
    let file = file_of(image::ImageFormat::Gif, 2, 2, mosaic_pixels());
    let decoded = decode(&file).unwrap();
    assert_eq!((decoded.width(), decoded.height()), (2, 2));
    assert_eq!(decoded.pixels().len(), 16);
}

#[test]
fn a_jpeg_is_decoded_with_its_dimensions() {
    let file = file_of(image::ImageFormat::Jpeg, 5, 3, vec![200; 5 * 3 * 4]);
    let decoded = decode(&file).unwrap();
    assert_eq!((decoded.width(), decoded.height()), (5, 3));
    assert_eq!(decoded.pixels().len(), 5 * 3 * 4);
    assert!(decoded.pixels().chunks(4).all(|pixel| pixel[3] == 255));
}

#[test]
fn a_webp_is_decoded_to_its_pixels() {
    let source = DecodedImage::new(2, 2, mosaic_pixels()).unwrap();
    let file = encode(&source, OutputFormat::WebP, 80).unwrap().bytes;
    let decoded = decode(&file).unwrap();
    assert_eq!((decoded.width(), decoded.height()), (2, 2));
    assert_eq!(decoded.pixels(), &mosaic_pixels());
}

#[test]
fn an_empty_input_is_refused() {
    assert_eq!(
        decode(&[]).unwrap_err(),
        PipelineError::DecodeFailed("unrecognized image format".to_string())
    );
}

#[test]
fn an_html_page_is_refused() {
    let page = b"<!DOCTYPE html><html><body><h1>404 Not Found</h1></body></html>";
    let error = decode(page).unwrap_err();
    assert_eq!(
        error,
        PipelineError::DecodeFailed("unrecognized image format".to_string())
    );
    assert_eq!(error.status(), 400);
    assert_eq!(error.message(), "decode failed: unrecognized image format");
}

#[test]
fn a_file_cut_short_of_its_pixels_is_refused_every_time() {
    let file = file_of(image::ImageFormat::Png, 2, 2, mosaic_pixels());
    assert!(file.len() > 33);
    for keep in [1, 4, 8, 20, 33] {
        for _ in 0..2 {
            assert!(matches!(
                decode(&file[..keep]),
                Err(PipelineError::DecodeFailed(_))
            ));
        }
    }
}

#[test]
fn a_signature_without_a_file_behind_it_is_refused() {
    assert!(matches!(decode(b"BM"), Err(PipelineError::DecodeFailed(_))));
    assert!(matches!(
        decode(&[0xFF, 0xD8, 0xFF]),
        Err(PipelineError::DecodeFailed(_))
    ));
    assert!(matches!(
        decode(b"GIF89a"),
        Err(PipelineError::DecodeFailed(_))
    ));
    assert!(matches!(
        decode(b"RIFF\x00\x00\x00\x00WEBP"),
        Err(PipelineError::DecodeFailed(_))
    ));
}

#[test]
fn a_decoder_failure_carries_its_words() {
    match decode(b"\x89PNG\r\n\x1a\nthis is no png") {
        Err(PipelineError::DecodeFailed(reason)) => assert!(!reason.is_empty()),
        other => panic!("expected a decode failure, got {:?}", other),
    }
}

#[test]
fn formats_are_recognised_by_their_first_bytes() {
    assert_eq!(sniff(b"\x89PNG\r\n\x1a\n...."), Some(SourceFormat::Png));
    assert_eq!(sniff(&[0xFF, 0xD8, 0xFF, 0xE0]), Some(SourceFormat::Jpeg));
    assert_eq!(sniff(b"GIF87a"), Some(SourceFormat::Gif));
    assert_eq!(sniff(b"GIF89a...."), Some(SourceFormat::Gif));
    assert_eq!(sniff(b"RIFF\x24\x00\x00\x00WEBPVP8 "), Some(SourceFormat::WebP));
    assert_eq!(sniff(b"BM\x00\x00"), Some(SourceFormat::Bmp));
}

#[test]
fn other_first_bytes_are_not_recognised() {
    assert_eq!(sniff(b""), None);
    assert_eq!(sniff(b"\x89PNG\r\n\x1a"), None);
    assert_eq!(sniff(b"\x89PNG\r\n\x1a\r"), None);
    assert_eq!(sniff(&[0xFF, 0xD8]), None);
    assert_eq!(sniff(b"GIF88a"), None);
    assert_eq!(sniff(b"RIFF\x24\x00\x00\x00WAVE"), None);
    assert_eq!(sniff(b"RIFF\x24\x00\x00\x00WEB"), None);
    assert_eq!(sniff(b"B"), None);
    assert_eq!(sniff(b"<html>"), None);
    assert_eq!(sniff(b"II*\x00"), None);
}

#[test]
fn sniffing_agrees_with_the_codec_library() {
    let samples: [&[u8]; 6] = [
        b"\x89PNG\r\n\x1a\n",
        &[0xFF, 0xD8, 0xFF],
        b"GIF87a",
        b"GIF89a",
        b"RIFF\x01\x02\x03\x04WEBP",
        b"BM",
    ];
    let expected = [
        (SourceFormat::Png, image::ImageFormat::Png),
        (SourceFormat::Jpeg, image::ImageFormat::Jpeg),
        (SourceFormat::Gif, image::ImageFormat::Gif),
        (SourceFormat::Gif, image::ImageFormat::Gif),
        (SourceFormat::WebP, image::ImageFormat::WebP),
        (SourceFormat::Bmp, image::ImageFormat::Bmp),
    ];
    for (sample, (ours, theirs)) in samples.iter().zip(expected) {
        assert_eq!(sniff(sample), Some(ours));
        assert_eq!(image::guess_format(sample).unwrap(), theirs);
    }
}

#[test]
fn only_a_full_raster_is_taken_as_an_image() {
    assert!(accept_raster(1, 1, vec![0; 4]).is_ok());
    assert_eq!(
        accept_raster(0, 1, vec![]).unwrap_err(),
        PipelineError::DecodeFailed("the decoder returned no raster".to_string())
    );
    assert!(matches!(
        accept_raster(1, 0, vec![]),
        Err(PipelineError::DecodeFailed(_))
    ));
    assert!(matches!(
        accept_raster(2, 2, vec![0; 15]),
        Err(PipelineError::DecodeFailed(_))
    ));
    assert!(matches!(
        accept_raster(2, 2, vec![0; 17]),
        Err(PipelineError::DecodeFailed(_))
    ));
}

#[test]
fn images_are_built_only_from_matching_buffers() {
    let image = DecodedImage::new(2, 1, vec![1, 2, 3, 4, 5, 6, 7, 8]).unwrap();
    assert_eq!(image.width(), 2);
    assert_eq!(image.height(), 1);
    assert_eq!(image.pixels(), &vec![1, 2, 3, 4, 5, 6, 7, 8]);
    assert!(DecodedImage::new(2, 1, vec![0; 7]).is_none());
    assert!(DecodedImage::new(2, 1, vec![0; 12]).is_none());
    assert!(DecodedImage::new(0, 0, vec![]).is_none());
    assert!(DecodedImage::new(u32::MAX, u32::MAX, vec![0; 4]).is_none());
}

#[test]
fn buffer_lengths_are_checked_without_overflow() {
    assert!(buffer_fills(0, 0, 7));
    assert!(buffer_fills(24, 2, 3));
    assert!(!buffer_fills(25, 2, 3));
    assert!(!buffer_fills(23, 2, 3));
    assert!(!buffer_fills(0, u32::MAX, u32::MAX));
    assert!(!buffer_fills(4, u32::MAX, u32::MAX));
}
