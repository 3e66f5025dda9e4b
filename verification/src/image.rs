//! The image that is handed on: its bytes as base64 text, and its type.

use crate::encoding::{encode_standard, encoded, encoded_len};
use crate::format::ImageFormat;
use vstd::prelude::*;

verus! {

/// An image taken from the clipboard, ready to be sent on as text.
#[derive(Clone, Debug, PartialEq, Eq)]
pub struct ClipboardImage {
    /// The bytes of the image, written as base64.
    pub data: String,
    /// The MIME type of the image.
    pub mime_type: String,
}

/// What a `ClipboardImage` holds, as plain sequences.
pub struct ImageView {
    pub data: Seq<char>,
    pub mime_type: Seq<char>,
}

impl View for ClipboardImage {
    type V = ImageView;

    open spec fn view(&self) -> ImageView {
        ImageView { data: self.data@, mime_type: self.mime_type@ }
    }
}

impl ImageView {
    /// The image that is handed on for bytes found in a format.
    pub open spec fn of(format: ImageFormat, bytes: Seq<u8>) -> ImageView {
        ImageView { data: encoded(bytes), mime_type: format.mime() }
    }

    /// Whether this is an image as a reading hands it on: the type is that
    /// of a format, and the data is the text of some bytes, at least one.
    pub open spec fn well_formed(self) -> bool {
        exists|format: ImageFormat, bytes: Seq<u8>|
            bytes.len() > 0 && self == #[trigger] ImageView::of(format, bytes)
    }

    /// A well-formed image never holds empty data.
    pub proof fn well_formed_has_data(self)
        requires
            self.well_formed(),
        ensures
            self.data.len() > 0,
    {
    }
}

impl ClipboardImage {
    /// The image for bytes found in a format. Without bytes there is no
    /// image: an image never holds empty data.
    pub fn from_bytes(format: ImageFormat, bytes: &[u8]) -> (image: Option<ClipboardImage>)
        requires
            encoded_len(bytes@.len()) <= isize::MAX,
        ensures
            bytes@.len() == 0 ==> image is None,
            bytes@.len() > 0 ==> image is Some && image->0@ == ImageView::of(format, bytes@),
            image matches Some(made) ==> made@.well_formed(),
    {
        if bytes.len() == 0 {
            None
        } else {
            assert(ImageView::of(format, bytes@).well_formed());
            Some(
                ClipboardImage {
                    data: encode_standard(bytes),
                    mime_type: format.mime_type().to_owned(),
                },
            )
        }
    }
}

} // verus!
