use thumbnailer::create_thumbnails;
use thumbnailer::error::ThumbError;
use thumbnailer::formats::MediaType;
use thumbnailer::ThumbnailSize;

fn encoded_bytes(w: u32, h: u32, format: image::ImageFormat) -> Vec<u8> {
    let img = image::DynamicImage::new_rgb8(w, h);
    let mut cur = std::io::Cursor::new(Vec::new());
    img.write_to(&mut cur, format).unwrap();
    cur.into_inner()
}

fn png_bytes(w: u32, h: u32) -> Vec<u8> {
    encoded_bytes(w, h, image::ImageFormat::Png)
}

#[test]
fn large_source_fit_dimensions() {
    assert_eq!(thumbnailer::geometry::fit_dimensions(4000, 3000, 300, 300), (300, 225));
}

#[test]
fn large_source_fits_box() {
    let bytes = png_bytes(640, 480);
    let thumbs = create_thumbnails(
        &bytes,
        MediaType::Png,
        vec![ThumbnailSize::Custom((300, 300))],
    )
    .unwrap();
    assert_eq!(thumbs.len(), 1);
    assert_eq!(thumbs[0].size(), (300, 225));
}

#[test]
fn small_source_upscales_to_fit() {
    let bytes = png_bytes(100, 200);
    let thumbs = create_thumbnails(
        &bytes,
        MediaType::Png,
        vec![ThumbnailSize::Custom((300, 300))],
    )
    .unwrap();
    assert_eq!(thumbs[0].size(), (150, 300));
}

#[test]
fn zero_sizes_yield_empty_list() {
    let bytes = png_bytes(10, 10);
    let thumbs = create_thumbnails(&bytes, MediaType::Png, vec![]).unwrap();
    assert!(thumbs.is_empty());
}

#[test]
fn duplicate_sizes_not_deduplicated() {
    let bytes = png_bytes(1000, 500);
    let thumbs = create_thumbnails(
        &bytes,
        MediaType::Png,
        vec![ThumbnailSize::Small, ThumbnailSize::Small],
    )
    .unwrap();
    assert_eq!(thumbs.len(), 2);
    assert_eq!(thumbs[0].size(), thumbs[1].size());
    assert_eq!(thumbs[0].size(), (128, 64));
}

#[test]
fn unsupported_type_rejected() {
    let bytes = png_bytes(10, 10);
    let err = create_thumbnails(&bytes, MediaType::Other, vec![ThumbnailSize::Small]).unwrap_err();
    assert!(matches!(err, ThumbError::UnsupportedFormat));
}

#[test]
fn malformed_bytes_give_decode_failure() {
    let bytes: Vec<u8> = vec![0, 1, 2, 3, 4, 5, 6, 7];
    let err = create_thumbnails(&bytes, MediaType::Png, vec![ThumbnailSize::Small]).unwrap_err();
    assert!(matches!(err, ThumbError::DecodeFailure(_)));
}

#[test]
fn type_mismatch_gives_decode_failure() {
    let bytes = png_bytes(20, 20);
    let err = create_thumbnails(&bytes, MediaType::Jpeg, vec![ThumbnailSize::Small]).unwrap_err();
    assert!(matches!(err, ThumbError::DecodeFailure(_)));
}

#[test]
fn decoded_dimensions_come_from_content() {
    let bytes = png_bytes(123, 45);
    let thumbs = create_thumbnails(
        &bytes,
        MediaType::Png,
        vec![ThumbnailSize::Custom((400, 400))],
    )
    .unwrap();
    assert_eq!(thumbs[0].size(), (400, 146));
}

#[test]
fn requested_order_kept() {
    let bytes = png_bytes(1000, 500);
    let thumbs = create_thumbnails(
        &bytes,
        MediaType::Png,
        vec![
            ThumbnailSize::Medium,
            ThumbnailSize::Icon,
            ThumbnailSize::Medium,
        ],
    )
    .unwrap();
    assert_eq!(thumbs.len(), 3);
    assert_eq!(thumbs[0].size(), (256, 128));
    assert_eq!(thumbs[1].size(), (64, 32));
    assert_eq!(thumbs[2].size(), (256, 128));
}

#[test]
fn zero_custom_box_clamps_to_one() {
    let bytes = png_bytes(10, 10);
    let thumbs = create_thumbnails(
        &bytes,
        MediaType::Png,
        vec![ThumbnailSize::Custom((0, 0))],
    )
    .unwrap();
    assert_eq!(thumbs[0].size(), (1, 1));
}

#[test]
fn size_catalog_boxes() {
    assert_eq!(ThumbnailSize::Icon.dimensions(), (64, 64));
    assert_eq!(ThumbnailSize::Small.dimensions(), (128, 128));
    assert_eq!(ThumbnailSize::Medium.dimensions(), (256, 256));
    assert_eq!(ThumbnailSize::Large.dimensions(), (512, 512));
    assert_eq!(ThumbnailSize::Larger.dimensions(), (1024, 1024));
    assert_eq!(ThumbnailSize::Custom((33, 44)).dimensions(), (33, 44));
}

#[test]
fn gif_source_decodes() {
    let bytes = encoded_bytes(50, 20, image::ImageFormat::Gif);
    let thumbs =
        create_thumbnails(&bytes, MediaType::Gif, vec![ThumbnailSize::Icon]).unwrap();
    assert_eq!(thumbs[0].size(), (64, 26));
}

#[test]
fn bmp_source_decodes() {
    let bytes = encoded_bytes(30, 60, image::ImageFormat::Bmp);
    let thumbs =
        create_thumbnails(&bytes, MediaType::Bmp, vec![ThumbnailSize::Icon]).unwrap();
    assert_eq!(thumbs[0].size(), (32, 64));
}

#[test]
fn fit_rounding_and_clamp() {
    // A half rounds up; an extreme ratio clamps the short side to 1.
    assert_eq!(thumbnailer::geometry::fit_dimensions(4, 1, 2, 2), (2, 1));
    assert_eq!(thumbnailer::geometry::fit_dimensions(10000, 1, 300, 300), (300, 1));
    assert_eq!(thumbnailer::geometry::fit_dimensions(1, 1, 5, 9), (5, 5));
}

#[test]
fn webp_source_decodes() {
    let bytes = encoded_bytes(33, 77, image::ImageFormat::WebP);
    let thumbs =
        create_thumbnails(&bytes, MediaType::Webp, vec![ThumbnailSize::Icon]).unwrap();
    assert_eq!(thumbs[0].size(), (27, 64));
}

#[test]
fn tiff_source_decodes() {
    let bytes = encoded_bytes(120, 80, image::ImageFormat::Tiff);
    let thumbs = create_thumbnails(
        &bytes,
        MediaType::Tiff,
        vec![ThumbnailSize::Custom((60, 60))],
    )
    .unwrap();
    assert_eq!(thumbs[0].size(), (60, 40));
}
