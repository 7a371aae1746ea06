//! The image codec of the `image` crate, seen through contracts.
//!
//! Decoding and encoding are deterministic functions of their inputs. Since the
//! decoded pixel grid is opaque here, every raster is identified by the bytes it
//! was decoded from, and the codec's results are named over those bytes.

use vstd::prelude::*;

verus! {

#[verifier::external_type_specification]
#[verifier::external_body]
pub struct ExDynamicImage(image::DynamicImage);

#[verifier::external_type_specification]
#[verifier::external_body]
pub struct ExImageError(image::ImageError);

/// What an encode step produces.
#[derive(PartialEq, Eq, Structural, Debug, Clone, Copy)]
pub enum Encoding {
    /// Baseline JPEG at a quality level in `0..=100`.
    Jpeg(u8),
    /// PNG, lossless.
    Png,
    /// WebP in its lossless form.
    WebP,
}

/// Whether `image::load_from_memory` accepts these bytes.
pub uninterp spec fn decodable(data: Seq<u8>) -> bool;

/// The bytes that `DynamicImage::write_to` produces in the given encoding for
/// the image that `image::load_from_memory` decodes from `source`, or `None`
/// where that encode fails.
pub uninterp spec fn encoding_of(source: Seq<u8>, enc: Encoding) -> Option<Seq<u8>>;

/// A decoded pixel grid, with the encoded bytes it was decoded from.
pub struct Raster {
    image: image::DynamicImage,
    source: Ghost<Seq<u8>>,
}

impl Raster {
    /// The encoded bytes this raster was decoded from.
    pub closed spec fn source(&self) -> Seq<u8> {
        self.source@
    }
}

/// Relies on `image::load_from_memory`: it guesses the container from the
/// leading bytes and decodes it (the first frame of an animation); it succeeds
/// exactly on the inputs it accepts. The raster records `data` as its source,
/// which is what `encode` names its output by.
#[verifier::external_body]
pub(crate) fn decode(data: &[u8]) -> (r: Result<Raster, image::ImageError>)
    ensures
        r is Ok <==> decodable(data@),
        r matches Ok(img) ==> img.source() == data@,
{
    match image::load_from_memory(data) {
        Ok(image) => Ok(Raster { image, source: Ghost(data@) }),
        Err(e) => Err(e),
    }
}

/// Relies on `image::DynamicImage::write_to` into an in-memory cursor: it
/// writes the whole encoded file or fails.
#[verifier::external_body]
pub(crate) fn encode(img: &Raster, enc: Encoding) -> (r: Result<Vec<u8>, image::ImageError>)
    ensures
        r is Ok <==> encoding_of(img.source(), enc) is Some,
        r matches Ok(bytes) ==> encoding_of(img.source(), enc) == Some(bytes@),
{
    let format = match enc {
        Encoding::Jpeg(quality) => image::ImageOutputFormat::Jpeg(quality),
        Encoding::Png => image::ImageOutputFormat::Png,
        Encoding::WebP => image::ImageOutputFormat::WebP,
    };
    let mut buf = std::io::Cursor::new(Vec::new());
    match img.image.write_to(&mut buf, format) {
        Ok(()) => Ok(buf.into_inner()),
        Err(e) => Err(e),
    }
}

} // verus!
