//! The closed set of target formats a conversion can produce.

use vstd::prelude::*;

verus! {

/// A target format for a conversion.  Each variant carries a fixed file
/// extension and corresponds to exactly one codec format identifier.
#[derive(Debug, Clone, Copy, PartialEq, Eq, Structural)]
pub enum ConvertFormat {
    Jpeg,
    Png,
    Webp,
    Bmp,
    Gif,
}

/// The file extension of a target format, as a sequence of characters.
pub open spec fn spec_extension(format: ConvertFormat) -> Seq<char> {
    match format {
        ConvertFormat::Jpeg => seq!['j', 'p', 'g'],
        ConvertFormat::Png => seq!['p', 'n', 'g'],
        ConvertFormat::Webp => seq!['w', 'e', 'b', 'p'],
        ConvertFormat::Bmp => seq!['b', 'm', 'p'],
        ConvertFormat::Gif => seq!['g', 'i', 'f'],
    }
}

impl ConvertFormat {
    /// The file extension used for outputs in this format, without the dot.
    pub fn extension(&self) -> (r: &str)
        ensures
            r@ == spec_extension(*self),
    {
        proof {
            reveal_strlit("jpg");
            reveal_strlit("png");
            reveal_strlit("webp");
            reveal_strlit("bmp");
            reveal_strlit("gif");
        }
        let r: &str = match self {
            ConvertFormat::Jpeg => "jpg",
            ConvertFormat::Png => "png",
            ConvertFormat::Webp => "webp",
            ConvertFormat::Bmp => "bmp",
            ConvertFormat::Gif => "gif",
        };
        proof {
            assert(r@ =~= spec_extension(*self));
        }
        r
    }

    /// The codec's identifier for this format.
    ///
    /// Relies on `image::ImageFormat`: each variant of `ConvertFormat` is
    /// mapped to the codec format of the same name, one arm per variant.
    /// Nothing is stated of the opaque result; callers hand it back to the
    /// codec unchanged.
    #[verifier::external_body]
    pub fn image_format(&self) -> image::ImageFormat {
        match self {
            ConvertFormat::Jpeg => image::ImageFormat::Jpeg,
            ConvertFormat::Png => image::ImageFormat::Png,
            ConvertFormat::Webp => image::ImageFormat::WebP,
            ConvertFormat::Bmp => image::ImageFormat::Bmp,
            ConvertFormat::Gif => image::ImageFormat::Gif,
        }
    }
}

#[verifier::external_type_specification]
#[verifier::external_body]
pub struct ExImageFormat(image::ImageFormat);

} // verus!
