//! The image formats that are looked for, and the order in which they are.

use vstd::prelude::*;

verus! {

/// An image format that the clipboard may offer.
#[derive(Clone, Copy, Debug, PartialEq, Eq, Structural)]
pub enum ImageFormat {
    Png,
    Jpeg,
    Bmp,
    Gif,
}

impl ImageFormat {
    /// The MIME type by which the format is asked for and labelled.
    pub open spec fn mime(self) -> Seq<char> {
        match self {
            ImageFormat::Png => "image/png"@,
            ImageFormat::Jpeg => "image/jpeg"@,
            ImageFormat::Bmp => "image/bmp"@,
            ImageFormat::Gif => "image/gif"@,
        }
    }

    /// The place of the format in the usual order of preference, 0 being
    /// the most preferred.
    pub open spec fn rank(self) -> int {
        match self {
            ImageFormat::Png => 0,
            ImageFormat::Jpeg => 1,
            ImageFormat::Bmp => 2,
            ImageFormat::Gif => 3,
        }
    }

    /// The MIME type of the format.
    pub fn mime_type(self) -> (name: &'static str)
        ensures
            name@ == self.mime(),
    {
        match self {
            ImageFormat::Png => "image/png",
            ImageFormat::Jpeg => "image/jpeg",
            ImageFormat::Bmp => "image/bmp",
            ImageFormat::Gif => "image/gif",
        }
    }

    /// No two formats share a MIME type: the label of an image tells its
    /// format.
    pub proof fn mime_tells_format(self, other: ImageFormat)
        requires
            self.mime() == other.mime(),
        ensures
            self == other,
    {
        reveal_strlit("image/png");
        reveal_strlit("image/jpeg");
        reveal_strlit("image/bmp");
        reveal_strlit("image/gif");
        let a = self.mime();
        let b = other.mime();
        assert(a.len() == b.len());
        assert(a[6] == b[6]);
    }
}

/// The formats in the order in which they are tried, the preferred one
/// first.
pub open spec fn priority() -> Seq<ImageFormat> {
    seq![ImageFormat::Png, ImageFormat::Jpeg, ImageFormat::Bmp, ImageFormat::Gif]
}

/// The formats in the order in which they are tried.
pub fn priority_order() -> (formats: Vec<ImageFormat>)
    ensures
        formats@ == priority(),
{
    vec![ImageFormat::Png, ImageFormat::Jpeg, ImageFormat::Bmp, ImageFormat::Gif]
}

} // verus!
