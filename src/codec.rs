//! The orientation that an encoded image declares, as in EXIF.

use vstd::prelude::*;

verus! {

#[derive(Clone, Copy, Debug, PartialEq, Eq, Structural, Hash)]
pub enum EncodedOrigin {
    /// Default
    TopLeft,
    /// Reflected across y-axis
    TopRight,
    /// Rotated 180
    BottomRight,
    /// Reflected across x-axis
    BottomLeft,
    /// Reflected across x-axis, Rotated 90 CCW
    LeftTop,
    /// Rotated 90 CW
    RightTop,
    /// Reflected across x-axis, Rotated 90 CW
    RightBottom,
    /// Rotated 90 CCW
    LeftBottom,
}

/// The EXIF orientation value, from 1 to 8.
pub open spec fn exif_value(o: EncodedOrigin) -> int {
    match o {
        EncodedOrigin::TopLeft => 1,
        EncodedOrigin::TopRight => 2,
        EncodedOrigin::BottomRight => 3,
        EncodedOrigin::BottomLeft => 4,
        EncodedOrigin::LeftTop => 5,
        EncodedOrigin::RightTop => 6,
        EncodedOrigin::RightBottom => 7,
        EncodedOrigin::LeftBottom => 8,
    }
}

impl EncodedOrigin {
    pub const LAST: EncodedOrigin = EncodedOrigin::LeftBottom;

    pub const DEFAULT: EncodedOrigin = EncodedOrigin::TopLeft;

    pub fn default() -> (r: EncodedOrigin)
        ensures
            r == EncodedOrigin::TopLeft,
    {
        EncodedOrigin::TopLeft
    }

    /// The EXIF orientation value.
    pub fn exif(self) -> (r: i32)
        ensures
            r == exif_value(self),
    {
        match self {
            EncodedOrigin::TopLeft => 1,
            EncodedOrigin::TopRight => 2,
            EncodedOrigin::BottomRight => 3,
            EncodedOrigin::BottomLeft => 4,
            EncodedOrigin::LeftTop => 5,
            EncodedOrigin::RightTop => 6,
            EncodedOrigin::RightBottom => 7,
            EncodedOrigin::LeftBottom => 8,
        }
    }

    /// Whether the origin includes a 90 degree rotation, so that width and
    /// height of the source data are swapped relative to a correctly oriented
    /// destination.
    pub fn swaps_width_height(self) -> (r: bool)
        ensures
            r == (exif_value(self) >= exif_value(EncodedOrigin::LeftTop)),
    {
        self.exif() >= EncodedOrigin::LeftTop.exif()
    }
}

} // verus!
