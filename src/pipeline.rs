//! Format dispatch, input normalisation and quality-driven recompression.

use vstd::prelude::*;
use crate::codec::{decodable, decode, encode, encoding_of, Encoding, Raster};

verus! {

/// A target format that a caller can ask for.
#[derive(PartialEq, Eq, Structural, Debug, Clone, Copy)]
pub enum Format {
    Jpeg,
    Png,
    WebP,
}

/// Why a conversion failed. Every failure ends the call.
#[derive(PartialEq, Eq, Structural, Debug, Clone, Copy)]
pub enum ConvertError {
    /// The input bytes are not an image the codec can read.
    Decode,
    /// An encode step, or the re-decode of the intermediate JPEG, failed.
    Encode,
    /// The format token names none of the supported formats.
    UnsupportedFormat,
}

/// Quality, in hundredths, used when the caller gives none.
pub const DEFAULT_QUALITY: i64 = 80;

/// What `str::to_lowercase` returns for a string.
pub uninterp spec fn lower_of(s: Seq<char>) -> Seq<char>;

/// Relies on `str::to_lowercase`: the Unicode lowercase of the whole string,
/// which depends on its characters alone.
#[verifier::external_body]
fn lowercase(s: &str) -> (r: String)
    ensures
        r@ == lower_of(s@),
{
    s.to_lowercase()
}

/// The format that an already lowercased token names.
pub open spec fn format_of_token(t: Seq<char>) -> Option<Format> {
    if t == seq!['j', 'p', 'e', 'g'] || t == seq!['j', 'p', 'g'] {
        Some(Format::Jpeg)
    } else if t == seq!['p', 'n', 'g'] {
        Some(Format::Png)
    } else if t == seq!['w', 'e', 'b', 'p'] {
        Some(Format::WebP)
    } else {
        None
    }
}

/// The format a caller asks for: WebP when absent, else the format that the
/// token names in any letter case.
pub open spec fn requested_format(format: Option<String>) -> Option<Format> {
    match format {
        None => Some(Format::WebP),
        Some(s) => format_of_token(lower_of(s@)),
    }
}

/// The JPEG quality level for a quality given in hundredths, saturated to
/// `0..=100`.
pub open spec fn level_of(quality: int) -> u8 {
    if quality < 0 {
        0
    } else if quality > 100 {
        100
    } else {
        quality as u8
    }
}

/// The JPEG quality level for a quality that may be absent.
pub open spec fn requested_level(quality: Option<i64>) -> u8 {
    match quality {
        None => level_of(DEFAULT_QUALITY as int),
        Some(q) => level_of(q as int),
    }
}

/// Whether the bytes start with the signature `GIF87a` or `GIF89a`.
pub open spec fn gif_signature(data: Seq<u8>) -> bool {
    &&& data.len() >= 6
    &&& data[0] == 0x47u8 && data[1] == 0x49u8 && data[2] == 0x46u8 && data[3] == 0x38u8
    &&& (data[4] == 0x37u8 || data[4] == 0x39u8)
    &&& data[5] == 0x61u8
}

/// Encode as JPEG at `level`, decode that JPEG again, and encode the result
/// in `last`.
pub open spec fn via_jpeg(source: Seq<u8>, level: u8, last: Encoding) -> Option<Seq<u8>> {
    match encoding_of(source, Encoding::Jpeg(level)) {
        None => None,
        Some(jpeg) => if decodable(jpeg) {
            encoding_of(jpeg, last)
        } else {
            None
        },
    }
}

/// The bytes the recompression of the image decoded from `source` yields.
pub open spec fn recompressed(source: Seq<u8>, format: Format, level: u8) -> Option<Seq<u8>> {
    match format {
        Format::Jpeg => encoding_of(source, Encoding::Jpeg(level)),
        Format::Png => via_jpeg(source, level, Encoding::Png),
        Format::WebP => via_jpeg(source, level, Encoding::WebP),
    }
}

/// An encode outcome as a result: a failed encode is an `Encode` error.
pub open spec fn encoded_or_fail(bytes: Option<Seq<u8>>) -> Result<Seq<u8>, ConvertError> {
    match bytes {
        Some(b) => Ok(b),
        None => Err(ConvertError::Encode),
    }
}

/// The whole conversion: an unknown format fails first, then undecodable
/// input, then any encode step.
pub open spec fn conversion(data: Seq<u8>, format: Option<Format>, level: u8) -> Result<
    Seq<u8>,
    ConvertError,
> {
    match format {
        None => Err(ConvertError::UnsupportedFormat),
        Some(f) => if !decodable(data) {
            Err(ConvertError::Decode)
        } else {
            encoded_or_fail(recompressed(data, f, level))
        },
    }
}

/// A byte buffer result seen as a sequence.
pub open spec fn outcome(r: Result<Vec<u8>, ConvertError>) -> Result<Seq<u8>, ConvertError> {
    match r {
        Ok(v) => Ok(v@),
        Err(e) => Err(e),
    }
}

/// The format that an already lowercased token names.
pub fn parse_format(token: &str) -> (r: Option<Format>)
    ensures
        r == format_of_token(token@),
{
    proof {
        reveal_strlit("jpeg");
        reveal_strlit("jpg");
        reveal_strlit("png");
        reveal_strlit("webp");
        assert("jpeg"@ =~= seq!['j', 'p', 'e', 'g']);
        assert("jpg"@ =~= seq!['j', 'p', 'g']);
        assert("png"@ =~= seq!['p', 'n', 'g']);
        assert("webp"@ =~= seq!['w', 'e', 'b', 'p']);
    }
    let t = token.to_owned();
    if t == "jpeg".to_owned() || t == "jpg".to_owned() {
        Some(Format::Jpeg)
    } else if t == "png".to_owned() {
        Some(Format::Png)
    } else if t == "webp".to_owned() {
        Some(Format::WebP)
    } else {
        None
    }
}

/// The format a caller asks for: WebP when absent, else the token's format
/// in any letter case.
pub fn resolve_format(format: Option<String>) -> (r: Option<Format>)
    ensures
        r == requested_format(format),
{
    match format {
        None => Some(Format::WebP),
        Some(s) => {
            let lowered = lowercase(s.as_str());
            parse_format(lowered.as_str())
        },
    }
}

/// The JPEG quality level for a quality in hundredths; values outside
/// `0..=100` saturate.
pub fn jpeg_level(quality: i64) -> (r: u8)
    ensures
        r == level_of(quality as int),
{
    if quality < 0 {
        0
    } else if quality > 100 {
        100
    } else {
        quality as u8
    }
}

/// Whether the bytes start with a GIF signature.
pub fn is_gif(data: &[u8]) -> (r: bool)
    ensures
        r == gif_signature(data@),
{
    if data.len() < 6 {
        return false;
    }
    data[0] == 0x47 && data[1] == 0x49 && data[2] == 0x46 && data[3] == 0x38 && (data[4] == 0x37
        || data[4] == 0x39) && data[5] == 0x61
}

/// Decodes GIF input; the codec yields its first frame.
fn extract_first_frame(data: &[u8]) -> (r: Result<Raster, ConvertError>)
    ensures
        r is Ok <==> decodable(data@),
        r matches Ok(img) ==> img.source() == data@,
        r matches Err(e) ==> e == ConvertError::Decode,
{
    match decode(data) {
        Ok(img) => Ok(img),
        Err(_) => Err(ConvertError::Decode),
    }
}

/// Decodes the input into a single raster: for a GIF the first frame, for
/// anything else the image its signature announces.
pub fn normalize(data: &[u8]) -> (r: Result<Raster, ConvertError>)
    ensures
        r is Ok <==> decodable(data@),
        r matches Ok(img) ==> img.source() == data@,
        r matches Err(e) ==> e == ConvertError::Decode,
{
    if is_gif(data) {
        extract_first_frame(data)
    } else {
        match decode(data) {
            Ok(img) => Ok(img),
            Err(_) => Err(ConvertError::Decode),
        }
    }
}

/// JPEG at `level`, then decode that JPEG, then encode it as `last`.
fn encode_via_jpeg(img: &Raster, level: u8, last: Encoding) -> (r: Result<Vec<u8>, ConvertError>)
    ensures
        outcome(r) == encoded_or_fail(via_jpeg(img.source(), level, last)),
{
    let jpeg = match encode(img, Encoding::Jpeg(level)) {
        Ok(bytes) => bytes,
        Err(_) => return Err(ConvertError::Encode),
    };
    let lossy = match decode(jpeg.as_slice()) {
        Ok(decoded) => decoded,
        Err(_) => return Err(ConvertError::Encode),
    };
    match encode(&lossy, last) {
        Ok(bytes) => Ok(bytes),
        Err(_) => Err(ConvertError::Encode),
    }
}

/// PNG whose only loss comes from a JPEG pass at `level`.
fn encode_png_via_jpeg(img: &Raster, level: u8) -> (r: Result<Vec<u8>, ConvertError>)
    ensures
        outcome(r) == encoded_or_fail(via_jpeg(img.source(), level, Encoding::Png)),
{
    encode_via_jpeg(img, level, Encoding::Png)
}

/// Lossless WebP whose only loss comes from a JPEG pass at `level`.
fn encode_webp_via_jpeg(img: &Raster, level: u8) -> (r: Result<Vec<u8>, ConvertError>)
    ensures
        outcome(r) == encoded_or_fail(via_jpeg(img.source(), level, Encoding::WebP)),
{
    encode_via_jpeg(img, level, Encoding::WebP)
}

/// Encodes the raster in `format`: JPEG directly at `level`, PNG and WebP
/// through a JPEG round trip at `level`.
pub fn recompress(img: &Raster, format: Format, level: u8) -> (r: Result<Vec<u8>, ConvertError>)
    ensures
        outcome(r) == encoded_or_fail(recompressed(img.source(), format, level)),
{
    match format {
        Format::Jpeg => match encode(img, Encoding::Jpeg(level)) {
            Ok(bytes) => Ok(bytes),
            Err(_) => Err(ConvertError::Encode),
        },
        Format::Png => encode_png_via_jpeg(img, level),
        Format::WebP => encode_webp_via_jpeg(img, level),
    }
}

/// Converts an encoded image into `format` (WebP when absent, any letter
/// case) at `quality` hundredths (80 when absent, saturated to `0..=100`).
/// The format token is checked before any decoding.
pub fn convert(data: &[u8], format: Option<String>, quality: Option<i64>) -> (r: Result<
    Vec<u8>,
    ConvertError,
>)
    ensures
        outcome(r) == conversion(data@, requested_format(format), requested_level(quality)),
{
    let target = match resolve_format(format) {
        Some(f) => f,
        None => return Err(ConvertError::UnsupportedFormat),
    };
    let level = match quality {
        Some(q) => jpeg_level(q),
        None => jpeg_level(DEFAULT_QUALITY),
    };
    let img = match normalize(data) {
        Ok(img) => img,
        Err(e) => return Err(e),
    };
    recompress(&img, target, level)
}

} // verus!
