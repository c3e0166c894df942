//! Trusted boundary to the outside codecs.
//!
//! Each function here wraps one operation of an outside crate. The result of
//! every operation is a function of the arguments alone, so each gets an
//! uninterpreted name that the wrapper's contract ties the returned bytes to;
//! the verified logic of the crate reasons purely in terms of those names.

use crate::CompressError;
use crate::EncodeStage;
use base64::Engine as _;
use rgb::ComponentBytes as _;
use rgb::FromSlice as _;
use vstd::prelude::*;

verus! {

/// The JPEG byte stream that encoding an RGB pixel buffer at one quality
/// setting produces.
pub uninterp spec fn jpeg_encoding(pixels: Seq<u8>, width: int, height: int, quality: u8) -> Seq<
    u8,
>;

/// The palette (flattened RGBA quadruples) and per-pixel palette indices
/// that quantizing an RGBA pixel buffer produces.
pub uninterp spec fn quantized_image(pixels: Seq<u8>, width: int, height: int) -> (
    Seq<u8>,
    Seq<u8>,
);

/// The PNG byte stream that encoding a palette and per-pixel indices with
/// the fixed settings (indexed color, eight-bit depth, highest compression
/// effort) produces.
pub uninterp spec fn indexed_png(palette: Seq<u8>, indices: Seq<u8>, width: int, height: int) -> Seq<
    u8,
>;

/// Whether a palette and per-pixel indices pass the PNG encoder's
/// validation and encode at all.
pub uninterp spec fn png_encodes(palette: Seq<u8>, indices: Seq<u8>, width: int, height: int) -> bool;

/// The standard base64 encoding of a byte sequence, with padding.
pub uninterp spec fn base64_of(data: Seq<u8>) -> Seq<char>;

/// Relies on `image::load_from_memory` and `DynamicImage::to_rgba8`. The
/// decoder consults a process-global hook registry before its built-in
/// format table, so which pixel buffer (if any) a byte stream decodes to is
/// not a function of the bytes alone and gets no name; what holds of every
/// outcome is the buffer's shape — `to_rgba8` always yields four bytes per
/// pixel — and that every failure is reported as a decode error.
#[verifier::external_body]
pub(crate) fn decode_rgba(data: &Vec<u8>) -> (r: Result<(u32, u32, Vec<u8>), CompressError>)
    ensures
        r matches Ok(t) ==> t.2@.len() == 4 * (t.0 as int) * (t.1 as int),
        r matches Err(e) ==> e == CompressError::DecodeFailed,
{
    match image::load_from_memory(data) {
        Ok(img) => {
            let rgba = img.to_rgba8();
            let (w, h) = (rgba.width(), rgba.height());
            Ok((w, h, rgba.into_raw()))
        },
        Err(_) => Err(CompressError::DecodeFailed),
    }
}

/// Relies on `mozjpeg::Compress` (RGB color space, optimized scans): the
/// encoded stream is a function of the pixels, the dimensions and the
/// quality setting. On the admitted inputs the call cannot return an error:
/// the dimensions stay within the range the codec accepts, the RGB setup
/// always leaves a unit sampling factor, the exact buffer length feeds every
/// scanline, the in-memory destination never rejects a write, and the
/// library reports its internal errors by unwinding rather than returning.
/// The error paths below are kept against changes in the crate.
#[verifier::external_body]
pub(crate) fn encode_jpeg(pixels: &Vec<u8>, width: u32, height: u32, quality: u8) -> (r: Result<
    Vec<u8>,
    CompressError,
>)
    requires
        1 <= width <= 65500,
        1 <= height <= 65500,
        pixels@.len() == 3 * (width as int) * (height as int),
    ensures
        r is Ok,
        r matches Ok(v) ==> v@ == jpeg_encoding(pixels@, width as int, height as int, quality),
{
    let mut comp = mozjpeg::Compress::new(mozjpeg::ColorSpace::JCS_RGB);
    comp.set_size(width as usize, height as usize);
    comp.set_quality(quality.into());
    comp.set_optimize_scans(true);
    let mut started = match comp.start_compress(Vec::new()) {
        Ok(s) => s,
        Err(_) => return Err(CompressError::EncodeFailed(EncodeStage::Setup)),
    };
    if started.write_scanlines(pixels.as_slice()).is_err() {
        return Err(CompressError::EncodeFailed(EncodeStage::Write));
    }
    match started.finish() {
        Ok(v) => Ok(v),
        Err(_) => Err(CompressError::EncodeFailed(EncodeStage::Write)),
    }
}

/// Relies on `imagequant` (speed 5, quality 0..=100, dithering level 1): with
/// its thread support disabled the palette and the remapped indices are a
/// function of the pixels and dimensions; the palette holds at most 256
/// colors of four bytes each and the remap yields one index byte per pixel.
/// The slice casts between bytes and pixels come from `rgb`, whose pixel
/// structs are packed byte-for-byte. Success is not promised and gets no
/// name: the quantizer surfaces allocation failure as an error at any of
/// its stages, which depends on the machine, not on the arguments.
#[verifier::external_body]
pub(crate) fn quantize_rgba(pixels: &Vec<u8>, width: u32, height: u32) -> (r: Result<
    (Vec<u8>, Vec<u8>),
    EncodeStage,
>)
    requires
        1 <= width,
        1 <= height,
        pixels@.len() == 4 * (width as int) * (height as int),
    ensures
        r matches Ok(t) ==> {
            &&& (t.0@, t.1@) == quantized_image(pixels@, width as int, height as int)
            &&& t.0@.len() % 4 == 0
            &&& t.0@.len() <= 1024
            &&& t.1@.len() == (width as int) * (height as int)
        },
        r matches Err(s) ==> (s == EncodeStage::Setup || s == EncodeStage::Quantize || s
            == EncodeStage::Remap),
{
    let mut liq = imagequant::new();
    liq.set_speed(5).ok();
    liq.set_quality(0, 100).ok();
    let wh = (width as usize, height as usize);
    let mut img = liq.new_image_borrowed(pixels.as_rgba(), wh.0, wh.1, 0u8.into()).map_err(
        |_| EncodeStage::Setup,
    )?;
    let mut res = liq.quantize(&mut img).map_err(|_| EncodeStage::Quantize)?;
    res.set_dithering_level(1u8.into()).ok();
    let (p, ix) = res.remapped(&mut img).map_err(|_| EncodeStage::Remap)?;
    Ok((p.as_bytes().to_vec(), ix))
}

/// Relies on `png::Encoder` (indexed color, eight-bit depth, `Compression::
/// High`): the encoded stream is a function of the palette, the indices and
/// the dimensions.
/// The encoder writes into memory and validates only its arguments, so it
/// succeeds or fails on them alone.
#[verifier::external_body]
pub(crate) fn encode_indexed_png(palette: &Vec<u8>, indices: &Vec<u8>, width: u32, height: u32) -> (r:
    Result<Vec<u8>, EncodeStage>)
    ensures
        r is Ok <==> png_encodes(palette@, indices@, width as int, height as int),
        r matches Ok(v) ==> v@ == indexed_png(palette@, indices@, width as int, height as int),
        r matches Err(s) ==> s == EncodeStage::Write,
{
    let mut out: Vec<u8> = Vec::new();
    let mut enc = png::Encoder::new(&mut out, width, height);
    enc.set_color(png::ColorType::Indexed);
    enc.set_depth(png::BitDepth::Eight);
    enc.set_compression(png::Compression::High);
    enc.set_palette(palette.clone());
    let mut writer = enc.write_header().map_err(|_| EncodeStage::Write)?;
    writer.write_image_data(indices.as_slice()).map_err(|_| EncodeStage::Write)?;
    writer.finish().map_err(|_| EncodeStage::Write)?;
    Ok(out)
}

/// Relies on `base64`'s standard engine: the encoding is a function of the
/// input bytes, four characters for every started group of three bytes.
#[verifier::external_body]
pub(crate) fn base64_encode(data: &Vec<u8>) -> (r: String)
    requires
        data@.len() <= usize::MAX / 2,
    ensures
        r@ == base64_of(data@),
        r@.len() == 4 * ((data@.len() + 2) / 3),
{
    base64::engine::general_purpose::STANDARD.encode(data)
}

/// Relies on `base64`'s standard engine: decoding demands canonical padding
/// and rejects stray trailing bits, so it accepts exactly the strings the
/// encoder produces, and inverts it on them; the encoding is injective, so
/// the decoded value is the only byte sequence with that encoding.
#[verifier::external_body]
pub(crate) fn base64_decode(s: &str) -> (r: Option<Vec<u8>>)
    ensures
        r matches Some(v) ==> s@ == base64_of(v@),
        (exists|v: Seq<u8>| s@ == base64_of(v)) ==> r is Some,
        r matches Some(v) ==> forall|u: Seq<u8>| s@ == #[trigger] base64_of(u) ==> u == v@,
{
    match base64::engine::general_purpose::STANDARD.decode(s) {
        Ok(v) => Some(v),
        Err(_) => None,
    }
}

} // verus!
