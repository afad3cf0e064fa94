use vstd::prelude::*;

verus! {

/// A named thumbnail tier. The catalog is a closed enumeration: each class
/// resolves to exactly one maximum bounding box, fixed at definition time.
/// `Custom` carries its own box and is the one caller-extensible escape hatch.
#[derive(Clone, Copy, Debug, PartialEq, Eq)]
pub enum ThumbnailSize {
    Icon,
    Small,
    Medium,
    Large,
    Larger,
    Custom((u32, u32)),
}

/// The bounding box of a size class: the fixed catalog mapping.
pub open spec fn size_box(s: ThumbnailSize) -> (u32, u32) {
    match s {
        ThumbnailSize::Icon => (64, 64),
        ThumbnailSize::Small => (128, 128),
        ThumbnailSize::Medium => (256, 256),
        ThumbnailSize::Large => (512, 512),
        ThumbnailSize::Larger => (1024, 1024),
        ThumbnailSize::Custom(b) => b,
    }
}

impl ThumbnailSize {
    /// The maximum (width, height) box of this size class. Pure and total.
    pub fn dimensions(&self) -> (r: (u32, u32))
        ensures
            r == size_box(*self),
    {
        match self {
            ThumbnailSize::Icon => (64, 64),
            ThumbnailSize::Small => (128, 128),
            ThumbnailSize::Medium => (256, 256),
            ThumbnailSize::Large => (512, 512),
            ThumbnailSize::Larger => (1024, 1024),
            ThumbnailSize::Custom(b) => *b,
        }
    }
}

} // verus!
