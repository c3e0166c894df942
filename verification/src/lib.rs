//! Size-constrained image recompression: given an image and a byte budget,
//! produce the best-quality re-encoding that fits the budget, never returning
//! a result larger than the original.

pub mod apps;
pub mod archive;
pub mod codecs;
pub mod compress;
pub mod format;
pub mod jpeg;
pub mod pixels;
pub mod pngq;
pub mod progress;

use vstd::prelude::*;

verus! {

/// Why a compression request failed.
#[derive(Debug, Clone, Copy, PartialEq, Eq, Structural)]
pub enum CompressError {
    /// The file extension is absent or names no supported codec family.
    UnsupportedFormat,
    /// The input bytes could not be decoded into a pixel buffer.
    DecodeFailed,
    /// A codec failed while producing the compressed output.
    EncodeFailed(EncodeStage),
}

/// The stage at which an encoder failed.
#[derive(Debug, Clone, Copy, PartialEq, Eq, Structural)]
pub enum EncodeStage {
    /// Building or configuring the encoder.
    Setup,
    /// Reducing the colors of the image to a bounded palette.
    Quantize,
    /// Mapping pixels onto the reduced palette.
    Remap,
    /// Writing the encoded byte stream.
    Write,
}

} // verus!
