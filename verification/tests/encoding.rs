use thumbnailer::create_thumbnails;
use thumbnailer::formats::MediaType;
use thumbnailer::ThumbnailSize;

fn png_bytes(w: u32, h: u32) -> Vec<u8> {
    let img = image::DynamicImage::new_rgb8(w, h);
    let mut cur = std::io::Cursor::new(Vec::new());
    img.write_to(&mut cur, image::ImageFormat::Png).unwrap();
    cur.into_inner()
}

fn one_thumbnail(
    bytes: &[u8],
    media: MediaType,
    size: ThumbnailSize,
) -> thumbnailer::Thumbnail {
    let mut thumbs = create_thumbnails(bytes, media, vec![size]).unwrap();
    assert_eq!(thumbs.len(), 1);
    thumbs.pop().unwrap()
}

#[test]
fn png_roundtrip_keeps_dimensions() {
    let bytes = png_bytes(640, 480);
    let thumb = one_thumbnail(&bytes, MediaType::Png, ThumbnailSize::Custom((300, 300)));
    assert_eq!(thumb.size(), (300, 225));

    let encoded = thumb.write_png().unwrap();
    let decoded = one_thumbnail(
        &encoded,
        MediaType::Png,
        ThumbnailSize::Custom((300, 225)),
    );
    assert_eq!(decoded.size(), (300, 225));

    let reencoded = decoded.write_png().unwrap();
    let img = image::load_from_memory_with_format(&reencoded, image::ImageFormat::Png).unwrap();
    assert_eq!(image::GenericImageView::dimensions(&img), (300, 225));
}

#[test]
fn jpeg_roundtrip_keeps_dimensions() {
    let bytes = png_bytes(640, 480);
    let thumb = one_thumbnail(&bytes, MediaType::Png, ThumbnailSize::Custom((300, 300)));

    let encoded = thumb.write_jpeg().unwrap();
    let decoded = one_thumbnail(
        &encoded,
        MediaType::Jpeg,
        ThumbnailSize::Custom((300, 225)),
    );
    assert_eq!(decoded.size(), (300, 225));

    let reencoded = decoded.write_jpeg().unwrap();
    let img = image::load_from_memory_with_format(&reencoded, image::ImageFormat::Jpeg).unwrap();
    assert_eq!(image::GenericImageView::dimensions(&img), (300, 225));
}

#[test]
fn png_encoding_keeps_alpha_source() {
    let img = image::DynamicImage::new_rgba8(40, 30);
    let mut cur = std::io::Cursor::new(Vec::new());
    img.write_to(&mut cur, image::ImageFormat::Png).unwrap();
    let bytes = cur.into_inner();

    let thumb = one_thumbnail(&bytes, MediaType::Png, ThumbnailSize::Custom((20, 20)));
    assert_eq!(thumb.size(), (20, 15));
    let encoded = thumb.write_png().unwrap();
    let back = image::load_from_memory_with_format(&encoded, image::ImageFormat::Png).unwrap();
    assert_eq!(image::GenericImageView::dimensions(&back), (20, 15));
}
