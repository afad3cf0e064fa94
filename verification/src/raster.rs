use vstd::prelude::*;
use crate::error::ThumbError;
use crate::formats::MediaType;

verus! {

#[verifier::external_type_specification]
#[verifier::external_body]
pub struct ExDynamicImage(image::DynamicImage);

/// The dimensions (width, height) a raster value holds. The raster itself is
/// opaque here; this name is what every contract about one speaks of.
pub uninterp spec fn dims_of(img: image::DynamicImage) -> (u32, u32);

/// Relies on the derived `Clone` for `image::DynamicImage`: a clone is an
/// identical copy of the raster; in particular it keeps the dimensions.
pub assume_specification[ <image::DynamicImage as Clone>::clone ](img: &image::DynamicImage) -> (r:
    image::DynamicImage)
    ensures
        dims_of(r) == dims_of(*img),
;

/// What `image::load_from_memory_with_format` returns for given bytes and a
/// given declared format: `Some` of the decoded raster's dimensions when the
/// bytes parse as that format, `None` when they do not. Decoding an in-memory
/// buffer is a function of the bytes and the format alone.
pub uninterp spec fn decode_result(bytes: Seq<u8>, media: MediaType) -> Option<(u32, u32)>;

/// Relies on `image::GenericImageView::dimensions` for `DynamicImage`: it
/// returns the raster's (width, height).
#[verifier::external_body]
pub(crate) fn raster_dims(img: &image::DynamicImage) -> (r: (u32, u32))
    ensures
        r == dims_of(*img),
{
    image::GenericImageView::dimensions(img)
}

/// Relies on `image::load_from_memory_with_format`: it decodes an in-memory
/// buffer as the one given format (no content sniffing), returning the raster
/// on success and a diagnostic error when the bytes do not conform. Success
/// and the decoded raster's dimensions depend on the arguments alone.
#[verifier::external_body]
pub(crate) fn decode_image(bytes: &[u8], media: MediaType) -> (r: Result<
    image::DynamicImage,
    ThumbError,
>)
    requires
        crate::formats::is_supported(media),
    ensures
        match r {
            Ok(img) => decode_result(bytes@, media) == Some(dims_of(img)),
            Err(e) => decode_result(bytes@, media) is None && e is DecodeFailure,
        },
{
    let fmt = match media {
        MediaType::Png => image::ImageFormat::Png,
        MediaType::Jpeg => image::ImageFormat::Jpeg,
        MediaType::Gif => image::ImageFormat::Gif,
        MediaType::Bmp => image::ImageFormat::Bmp,
        MediaType::Webp => image::ImageFormat::WebP,
        MediaType::Tiff => image::ImageFormat::Tiff,
        MediaType::Ico => image::ImageFormat::Ico,
        MediaType::Other => return Err(ThumbError::UnsupportedFormat),
    };
    match image::load_from_memory_with_format(bytes, fmt) {
        Ok(img) => Ok(img),
        Err(e) => Err(ThumbError::DecodeFailure(format!("{}", e))),
    }
}

/// Relies on `image::DynamicImage::resize_exact`: "`nwidth` and `nheight` are
/// the new image's dimensions"; the aspect ratio is not its concern. The
/// filter is the high-quality windowed-sinc one (Lanczos3).
#[verifier::external_body]
pub(crate) fn resample(img: &image::DynamicImage, w: u32, h: u32) -> (r: image::DynamicImage)
    requires
        1 <= w,
        1 <= h,
    ensures
        dims_of(r) == (w, h),
{
    img.resize_exact(w, h, image::imageops::FilterType::Lanczos3)
}

/// The decoder's default allocation cap, in bytes:
/// `image::load_from_memory_with_format` decodes under `Limits::default()`,
/// which admits at most 512 MiB for the decoded buffer. An encoded raster
/// whose decoded form is larger is rejected at decode time, however valid its
/// bytes.
pub open spec fn decode_alloc_limit() -> int {
    (512 * 1024 * 1024) as int
}

/// Relies on `image::DynamicImage::into_rgba8` (a color conversion that keeps
/// the dimensions) and `image::DynamicImage::write_to` with
/// `ImageFormat::Png`. For a raster with positive dimensions the PNG encoder
/// has no failure path on an in-memory sink: it rejects only a zero dimension
/// or an unsupported color type, and eight-bit RGBA is supported. The output
/// decodes back to the raster's own dimensions whenever its decoded RGBA
/// buffer (4 bytes per pixel) fits the decoder's default allocation cap.
#[verifier::external_body]
pub(crate) fn encode_png(img: image::DynamicImage) -> (r: Result<Vec<u8>, ThumbError>)
    requires
        1 <= dims_of(img).0,
        1 <= dims_of(img).1,
    ensures
        r is Ok,
        match r {
            Ok(b) => 4 * (dims_of(img).0 as int) * (dims_of(img).1 as int) <= decode_alloc_limit()
                ==> decode_result(b@, MediaType::Png) == Some(dims_of(img)),
            Err(e) => e is EncodeFailure,
        },
{
    let out = image::DynamicImage::ImageRgba8(img.into_rgba8());
    let mut cur = std::io::Cursor::new(Vec::new());
    match out.write_to(&mut cur, image::ImageFormat::Png) {
        Ok(()) => Ok(cur.into_inner()),
        Err(e) => Err(ThumbError::EncodeFailure(format!("{}", e))),
    }
}

/// Relies on `image::DynamicImage::into_rgb8` (a color conversion that drops
/// alpha and keeps the dimensions) and `image::DynamicImage::write_to` with
/// `ImageFormat::Jpeg`. On an in-memory sink the JPEG encoder fails exactly
/// when a dimension lies outside 1..=65535; within that range it succeeds,
/// and the output decodes back to the raster's own dimensions whenever its
/// decoded RGB buffer (3 bytes per pixel) fits the decoder's default
/// allocation cap.
#[verifier::external_body]
pub(crate) fn encode_jpeg(img: image::DynamicImage) -> (r: Result<Vec<u8>, ThumbError>)
    requires
        1 <= dims_of(img).0,
        1 <= dims_of(img).1,
    ensures
        match r {
            Ok(b) => dims_of(img).0 <= 65535 && dims_of(img).1 <= 65535 && (3 * (dims_of(
                img,
            ).0 as int) * (dims_of(img).1 as int) <= decode_alloc_limit() ==> decode_result(
                b@,
                MediaType::Jpeg,
            ) == Some(dims_of(img))),
            Err(e) => (e is EncodeFailure) && (dims_of(img).0 > 65535 || dims_of(img).1 > 65535),
        },
{
    let out = image::DynamicImage::ImageRgb8(img.into_rgb8());
    let mut cur = std::io::Cursor::new(Vec::new());
    match out.write_to(&mut cur, image::ImageFormat::Jpeg) {
        Ok(()) => Ok(cur.into_inner()),
        Err(e) => Err(ThumbError::EncodeFailure(format!("{}", e))),
    }
}

} // verus!
