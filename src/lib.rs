//! Converts an encoded image into a single still image in JPEG, PNG or WebP,
//! with a quality factor that always acts through a JPEG pass.

pub mod codec;
pub mod pipeline;
pub mod laws;

pub use codec::{Encoding, Raster};
pub use pipeline::{convert, ConvertError, Format};
