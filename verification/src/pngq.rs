//! PNG strategy: one fixed-parameter color quantization pass (bounded
//! palette, dithering enabled) followed by an indexed-PNG encode at the
//! highest compression effort. Unlike the JPEG strategy there is no
//! byte-budget feedback loop: palette reduction is the only PNG-safe lossy
//! lever, and its size impact is too coarse to search against a target.

use crate::codecs::{encode_indexed_png, indexed_png, png_encodes, quantize_rgba, quantized_image};
use crate::pixels::{rgb_of, rgba_to_rgb};
use crate::progress::{progress_wf, ProgressTrace};
use crate::{CompressError, EncodeStage};
use vstd::prelude::*;

verus! {

/// What the PNG strategy returns: the indexed-PNG encoding of the palette
/// (its colors stripped of their alpha byte) and of the index mapping that
/// quantizing the RGBA buffer produces.
pub open spec fn png_strategy_post(out: Seq<u8>, px: Seq<u8>, w: int, h: int) -> bool {
    out == indexed_png(rgb_of(quantized_image(px, w, h).0), quantized_image(px, w, h).1, w, h)
}

/// What each failing stage of the PNG strategy says of its cause. The write
/// stage fails only when the quantized image does not pass the PNG
/// encoder's validation. The quantizer's own stages (setup, quantize,
/// remap) carry no such condition: the quantizer surfaces allocation
/// failure as an error at any of them, which no predicate on the inputs
/// can capture.
pub open spec fn png_stage_accounted(s: EncodeStage, px: Seq<u8>, w: int, h: int) -> bool {
    &&& (s == EncodeStage::Setup || s == EncodeStage::Quantize || s == EncodeStage::Remap || s
        == EncodeStage::Write)
    &&& (s == EncodeStage::Write ==> !png_encodes(
        rgb_of(quantized_image(px, w, h).0),
        quantized_image(px, w, h).1,
        w,
        h,
    ))
}

/// Compress an RGBA pixel buffer into an indexed PNG. On success the
/// quantized palette holds at most 256 colors (1024 RGBA bytes).
pub fn compress_png(rgba: &Vec<u8>, width: u32, height: u32, trace: &mut ProgressTrace) -> (r:
    Result<Vec<u8>, CompressError>)
    requires
        1 <= width,
        1 <= height,
        rgba@.len() == 4 * (width as int) * (height as int),
        progress_wf(old(trace)@),
        old(trace)@.len() > 0 ==> old(trace)@.last() <= 40,
    ensures
        progress_wf(final(trace)@),
        old(trace)@.is_prefix_of(final(trace)@),
        r matches Ok(v) ==> {
            &&& png_strategy_post(v@, rgba@, width as int, height as int)
            &&& quantized_image(rgba@, width as int, height as int).0.len() <= 1024
            &&& final(trace)@.len() > 0 && final(trace)@.last() == 90
        },
        r matches Err(e) ==> (e matches CompressError::EncodeFailed(s) && png_stage_accounted(
            s,
            rgba@,
            width as int,
            height as int,
        )),
{
    trace.emit(40);
    trace.emit(50);
    let (palette_rgba, indices) = match quantize_rgba(rgba, width, height) {
        Ok(t) => t,
        Err(s) => {
            return Err(CompressError::EncodeFailed(s));
        },
    };
    trace.emit(80);
    let palette = rgba_to_rgb(&palette_rgba);
    let out = match encode_indexed_png(&palette, &indices, width, height) {
        Ok(v) => v,
        Err(s) => {
            return Err(CompressError::EncodeFailed(s));
        },
    };
    trace.emit(90);
    Ok(out)
}

/// Law: the PNG strategy is deterministic. Quantizing and encoding the same
/// RGBA buffer twice, with the same dimensions and the fixed quantizer and
/// encoder parameters, yields byte-identical output.
pub proof fn lemma_png_determinism(out1: Seq<u8>, out2: Seq<u8>, px: Seq<u8>, w: int, h: int)
    requires
        png_strategy_post(out1, px, w, h),
        png_strategy_post(out2, px, w, h),
    ensures
        out1 == out2,
{
}

} // verus!
