use vstd::prelude::*;
use crate::error::ThumbError;
use crate::error::ThumbResult;
use crate::raster::decode_image;
use crate::raster::dims_of;
use crate::raster::decode_result;
use crate::raster::raster_dims;

verus! {

/// A caller-declared media type, used solely to select the decode path. It is
/// never inferred from the bytes: a mismatch between declaration and content
/// surfaces as a decode failure, not a silent correction. `Other` stands for
/// every type with no registered decoder.
#[derive(Clone, Copy, Debug, PartialEq, Eq)]
pub enum MediaType {
    Png,
    Jpeg,
    Gif,
    Bmp,
    Webp,
    Tiff,
    Ico,
    Other,
}

/// Whether a decoder is registered for the declared type.
pub open spec fn is_supported(m: MediaType) -> bool {
    !(m is Other)
}

impl MediaType {
    /// Whether this declared type has a registered decoder.
    pub fn supported(&self) -> (r: bool)
        ensures
            r == is_supported(*self),
    {
        match self {
            MediaType::Other => false,
            _ => true,
        }
    }
}

/// The single fully decoded in-memory raster from which every requested
/// thumbnail is derived, together with its dimensions. Logically immutable:
/// it is only ever read after decode.
pub struct BaseImage {
    img: image::DynamicImage,
    width: u32,
    height: u32,
}

impl BaseImage {
    /// The source dimensions (width, height).
    pub closed spec fn dims(&self) -> (u32, u32) {
        (self.width, self.height)
    }

    /// The raster value itself.
    pub closed spec fn raster(&self) -> image::DynamicImage {
        self.img
    }

    /// Well-formedness: the recorded dimensions are the raster's own, and the
    /// raster has no zero side.
    pub closed spec fn wf(&self) -> bool {
        &&& dims_of(self.img) == (self.width, self.height)
        &&& 1 <= self.width
        &&& 1 <= self.height
    }

    /// What well-formedness gives a caller that cannot unfold it.
    pub proof fn lemma_wf(&self)
        requires
            self.wf(),
        ensures
            1 <= self.dims().0,
            1 <= self.dims().1,
            dims_of(self.raster()) == self.dims(),
    {
    }

    /// The source width.
    pub fn width(&self) -> (r: u32)
        ensures
            r == self.dims().0,
    {
        self.width
    }

    /// The source height.
    pub fn height(&self) -> (r: u32)
        ensures
            r == self.dims().1,
    {
        self.height
    }

    /// A shared borrow of the raster, for the read-only resize fan-out.
    pub fn raster_ref(&self) -> (r: &image::DynamicImage)
        ensures
            *r == self.raster(),
    {
        &self.img
    }
}

/// Select the decoder for the declared type and decode the bytes into one
/// base raster. Fails with `UnsupportedFormat` exactly when no decoder is
/// registered for `media` (without touching the bytes), with `DecodeFailure`
/// exactly when the bytes do not parse as the declared format or parse to a
/// raster with a zero side.
pub fn get_base_image(bytes: &[u8], media: MediaType) -> (r: ThumbResult<BaseImage>)
    ensures
        match r {
            Ok(b) => {
                &&& is_supported(media)
                &&& b.wf()
                &&& decode_result(bytes@, media) == Some(b.dims())
                &&& 1 <= b.dims().0
                &&& 1 <= b.dims().1
            },
            Err(e) => {
                &&& ((e is UnsupportedFormat) <==> !is_supported(media))
                &&& is_supported(media) ==> (e is DecodeFailure) && (match decode_result(
                    bytes@,
                    media,
                ) {
                    Some(d) => d.0 == 0 || d.1 == 0,
                    None => true,
                })
            },
        },
{
    if !media.supported() {
        return Err(ThumbError::UnsupportedFormat);
    }
    let img = match decode_image(bytes, media) {
        Ok(i) => i,
        Err(e) => {
            return Err(e);
        },
    };
    let d: (u32, u32) = raster_dims(&img);
    if d.0 == 0 || d.1 == 0 {
        return Err(ThumbError::DecodeFailure("decoded image has a zero dimension".to_string()));
    }
    Ok(BaseImage { img, width: d.0, height: d.1 })
}

} // verus!
