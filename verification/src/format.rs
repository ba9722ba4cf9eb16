//! Image formats a rendered graph can be exported to.

use vstd::prelude::*;

verus! {

/// An export format for the rendered graph.
#[derive(Debug, Clone, Copy, PartialEq, Eq, Structural)]
pub enum Format {
    Svg,
    Png,
    Jpeg,
}

impl Format {
    /// The file-name extension used when exporting in this format.
    pub fn extension(&self) -> (r: &'static str)
        ensures
            self is Svg ==> r@ == "svg"@,
            self is Png ==> r@ == "png"@,
            self is Jpeg ==> r@ == "jpg"@,
    {
        match self {
            Self::Svg => "svg",
            Self::Png => "png",
            Self::Jpeg => "jpg",
        }
    }

    /// The MIME type of files in this format.
    pub fn mime_type(&self) -> (r: &'static str)
        ensures
            self is Svg ==> r@ == "image/svg+xml"@,
            self is Png ==> r@ == "image/png"@,
            self is Jpeg ==> r@ == "image/jpeg"@,
    {
        match self {
            Self::Svg => "image/svg+xml",
            Self::Png => "image/png",
            Self::Jpeg => "image/jpeg",
        }
    }

    /// The type name the pixel-buffer encoder wants for a raster export;
    /// a vector format is written out as it came from the renderer.
    pub fn encoder_type(&self) -> (r: Option<&'static str>)
        ensures
            self is Svg ==> r is None,
            self is Png ==> (r matches Some(t) && t@ == "png"@),
            self is Jpeg ==> (r matches Some(t) && t@ == "jpeg"@),
    {
        match self {
            Self::Svg => None,
            Self::Png => Some("png"),
            Self::Jpeg => Some("jpeg"),
        }
    }

    /// The format's name as shown to the user.
    pub fn name(&self) -> (r: &'static str)
        ensures
            self is Svg ==> r@ == "SVG"@,
            self is Png ==> r@ == "PNG"@,
            self is Jpeg ==> r@ == "JPEG"@,
    {
        match self {
            Self::Svg => "SVG",
            Self::Png => "PNG",
            Self::Jpeg => "JPEG",
        }
    }

    /// The format's position in the export dialog's format row.
    pub fn index(&self) -> (r: u32)
        ensures
            r == self.spec_index(),
    {
        match self {
            Self::Svg => 0,
            Self::Png => 1,
            Self::Jpeg => 2,
        }
    }

    /// The format at the given row position, if any.
    pub fn from_index(index: u32) -> (r: Option<Format>)
        ensures
            index <= 2 ==> (r matches Some(f) && f.spec_index() == index),
            index > 2 ==> r is None,
    {
        match index {
            0 => Some(Self::Svg),
            1 => Some(Self::Png),
            2 => Some(Self::Jpeg),
            _ => None,
        }
    }

    /// The row position of each format.
    pub open spec fn spec_index(&self) -> u32 {
        match self {
            Self::Svg => 0,
            Self::Png => 1,
            Self::Jpeg => 2,
        }
    }
}

} // verus!
