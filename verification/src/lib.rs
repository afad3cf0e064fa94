use vstd::prelude::*;
use vstd::math::max;
use rayon::iter::IntoParallelRefIterator;
use rayon::iter::ParallelIterator;

pub mod error;
pub mod formats;
pub mod geometry;
pub mod raster;
pub mod size;

use crate::error::ThumbError;
use crate::error::ThumbResult;
use crate::formats::get_base_image;
use crate::formats::is_supported;
use crate::formats::BaseImage;
use crate::formats::MediaType;
use crate::geometry::fit_dimensions;
use crate::geometry::fit_spec;
use crate::geometry::lemma_fit_within_box;
use crate::raster::decode_result;
use crate::raster::decode_alloc_limit;
use crate::raster::dims_of;
use crate::raster::encode_jpeg;
use crate::raster::encode_png;
use crate::raster::resample;
use crate::size::size_box;
pub use crate::size::ThumbnailSize;

verus! {

/// The value object the pipeline yields: one resized raster plus its realized
/// (width, height). Immutable after creation; consumed by encoding.
#[derive(Clone, Debug)]
pub struct Thumbnail {
    inner: image::DynamicImage,
    width: u32,
    height: u32,
}

/// The dimensions the pipeline realizes for one requested size class: the
/// aspect-fit of the source into the class's box, each box side first clamped
/// up to 1 so that the fit is defined even for a degenerate custom box.
pub open spec fn planned_dims(src: (u32, u32), s: ThumbnailSize) -> (int, int) {
    fit_spec(
        src.0 as int,
        src.1 as int,
        max(1, size_box(s).0 as int),
        max(1, size_box(s).1 as int),
    )
}

impl Thumbnail {
    /// The realized dimensions (width, height).
    pub closed spec fn dims(&self) -> (u32, u32) {
        (self.width, self.height)
    }

    /// The recorded pair is the raster's own and has no zero side.
    pub closed spec fn wf(&self) -> bool {
        &&& dims_of(self.inner) == (self.width, self.height)
        &&& 1 <= self.width
        &&& 1 <= self.height
    }

    /// The size of the thumbnail as width, height.
    pub fn size(&self) -> (r: (u32, u32))
        ensures
            r == self.dims(),
    {
        (self.width, self.height)
    }

    /// Serialize as PNG, the lossless output encoding that keeps
    /// transparency. Always succeeds for a well-formed thumbnail, and the
    /// bytes are a PNG that decodes back to exactly this thumbnail's
    /// dimensions, whenever its decoded RGBA buffer fits the decoder's
    /// default allocation cap. Consumes the thumbnail.
    pub fn write_png(self) -> (r: ThumbResult<Vec<u8>>)
        requires
            self.wf(),
        ensures
            r is Ok,
            match r {
                Ok(b) => 4 * (self.dims().0 as int) * (self.dims().1 as int)
                    <= decode_alloc_limit() ==> decode_result(b@, MediaType::Png) == Some(
                    self.dims(),
                ),
                Err(e) => e is EncodeFailure,
            },
    {
        encode_png(self.inner)
    }

    /// Serialize as JPEG, the lossy output encoding without transparency
    /// (alpha is stripped at encode time). Fails, with `EncodeFailure`,
    /// exactly when a dimension exceeds JPEG's 65535 limit; otherwise the
    /// bytes are a JPEG that decodes back to exactly this thumbnail's
    /// dimensions, whenever its decoded RGB buffer fits the decoder's default
    /// allocation cap. Consumes the thumbnail.
    pub fn write_jpeg(self) -> (r: ThumbResult<Vec<u8>>)
        requires
            self.wf(),
        ensures
            self.dims().0 <= 65535 && self.dims().1 <= 65535 ==> r is Ok,
            match r {
                Ok(b) => 3 * (self.dims().0 as int) * (self.dims().1 as int)
                    <= decode_alloc_limit() ==> decode_result(b@, MediaType::Jpeg) == Some(
                    self.dims(),
                ),
                Err(e) => (e is EncodeFailure) && (self.dims().0 > 65535 || self.dims().1 > 65535),
            },
    {
        encode_jpeg(self.inner)
    }
}

/// Produce one thumbnail: look up the size class's box, compute the
/// aspect-fit dimensions, and resample the shared base raster to exactly
/// those dimensions. Independent of every other size's resize.
fn resize_one(base: &BaseImage, size: &ThumbnailSize) -> (t: Thumbnail)
    requires
        base.wf(),
    ensures
        t.wf(),
        (t.dims().0 as int, t.dims().1 as int) == planned_dims(base.dims(), *size),
{
    proof {
        base.lemma_wf();
    }
    let b: (u32, u32) = size.dimensions();
    let bw: u32 = if b.0 == 0 {
        1
    } else {
        b.0
    };
    let bh: u32 = if b.1 == 0 {
        1
    } else {
        b.1
    };
    let fitted: (u32, u32) = fit_dimensions(base.width(), base.height(), bw, bh);
    proof {
        lemma_fit_within_box(base.dims().0 as int, base.dims().1 as int, bw as int, bh as int);
    }
    let img = resample(base.raster_ref(), fitted.0, fitted.1);
    Thumbnail { inner: img, width: fitted.0, height: fitted.1 }
}

/// Resize the shared base raster once per requested size class, in the
/// requested order. Relies on rayon's `par_iter`, `map` and `collect` on a
/// `Vec`: the closure, which only calls the verified `resize_one`, is applied
/// to every element, and the results are collected in the input's order; the
/// contract restates `resize_one`'s postcondition once per element. The
/// fan-out reads the base image shared and immutable, and each task owns its
/// own output.
#[verifier::external_body]
fn resize_images(base: &BaseImage, sizes: &Vec<ThumbnailSize>) -> (r: Vec<Thumbnail>)
    requires
        base.wf(),
    ensures
        r@.len() == sizes@.len(),
        forall|i: int|
            0 <= i < r@.len() ==> (#[trigger] r@[i]).wf() && (
            r@[i].dims().0 as int,
            r@[i].dims().1 as int,
            ) == planned_dims(base.dims(), sizes@[i]),
{
    sizes.par_iter().map(|size| resize_one(base, size)).collect()
}

/// Create one thumbnail per requested size class, in the requested order,
/// from an in-memory encoded image declared (not sniffed) to be of `media`'s
/// format. Either every requested thumbnail is produced or the whole call
/// fails with the first error: `UnsupportedFormat` exactly when no decoder is
/// registered for `media`, `DecodeFailure` exactly when the bytes do not
/// parse as the declared format or parse to a raster with a zero side. Zero
/// requested sizes yield an empty list with no resampling; a duplicated size
/// class yields independent thumbnails of equal dimensions.
pub fn create_thumbnails(bytes: &[u8], media: MediaType, sizes: Vec<ThumbnailSize>) -> (r:
    ThumbResult<Vec<Thumbnail>>)
    ensures
        match r {
            Ok(thumbs) => {
                &&& is_supported(media)
                &&& decode_result(bytes@, media) matches Some(src) && 1 <= src.0 && 1 <= src.1
                    && thumbs@.len() == sizes@.len() && (forall|i: int|
                    0 <= i < thumbs@.len() ==> (#[trigger] thumbs@[i]).wf() && (
                    thumbs@[i].dims().0 as int,
                    thumbs@[i].dims().1 as int,
                    ) == planned_dims(src, sizes@[i]))
            },
            Err(e) => {
                &&& ((e is UnsupportedFormat) <==> !is_supported(media))
                &&& is_supported(media) ==> (e is DecodeFailure) && (match decode_result(
                    bytes@,
                    media,
                ) {
                    Some(d) => d.0 == 0 || d.1 == 0,
                    None => true,
                })
            },
        },
{
    let base = match get_base_image(bytes, media) {
        Ok(b) => b,
        Err(e) => {
            return Err(e);
        },
    };
    Ok(resize_images(&base, &sizes))
}

/// LAW (duplicates): equal size classes realize identical planned dimensions
/// against the same source; duplicate requests are never deduplicated, they
/// are computed independently and equally.
pub proof fn lemma_equal_sizes_equal_dims(src: (u32, u32), a: ThumbnailSize, b: ThumbnailSize)
    requires
        a == b,
    ensures
        planned_dims(src, a) == planned_dims(src, b),
{
}

/// LAW (box fit, lifted to size classes): for a positive source, the planned
/// dimensions for any size class fit its (clamped) box, are at least 1 x 1,
/// and meet the box in at least one side.
pub proof fn lemma_planned_dims_within_box(src: (u32, u32), s: ThumbnailSize)
    requires
        1 <= src.0,
        1 <= src.1,
    ensures
        1 <= planned_dims(src, s).0 <= max(1, size_box(s).0 as int),
        1 <= planned_dims(src, s).1 <= max(1, size_box(s).1 as int),
        planned_dims(src, s).0 == max(1, size_box(s).0 as int) || planned_dims(src, s).1 == max(
            1,
            size_box(s).1 as int,
        ),
{
    lemma_fit_within_box(
        src.0 as int,
        src.1 as int,
        max(1, size_box(s).0 as int),
        max(1, size_box(s).1 as int),
    );
}

} // verus!
