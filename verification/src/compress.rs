//! Compression orchestrator: decode the source once, dispatch to the
//! format-appropriate strategy, compare the outcome against the original
//! bytes and never surface a result larger than them.

use crate::codecs::{base64_encode, base64_of, decode_rgba, png_encodes, quantized_image};
use crate::format::{get_image_format, spec_image_format, ImageFormatKind};
use crate::jpeg::{compress_jpeg, jpeg_search_post};
use crate::pixels::{rgb_of, rgba_to_rgb};
use crate::pngq::{compress_png, png_strategy_post};
use crate::progress::{progress_wf, ProgressTrace};
use crate::{CompressError, EncodeStage};
use vstd::prelude::*;

verus! {

/// The outcome of one compression request. `compressed_data` is the base64
/// transport encoding of the bytes the request settled on, and
/// `compressed_size` counts those bytes before the transport encoding.
#[derive(Debug)]
pub struct CompressResult {
    pub original_size: u64,
    pub compressed_size: u64,
    pub compressed_data: String,
}

/// The result carries exactly `bytes`: their count and their base64
/// transport encoding.
pub open spec fn result_carries(res: CompressResult, bytes: Seq<u8>) -> bool {
    &&& res.compressed_size == bytes.len()
    &&& res.compressed_data@ == base64_of(bytes)
}

/// How a strategy output is finalized: the original bytes win whenever the
/// strategy produced something larger than them.
pub open spec fn finalized(res: CompressResult, orig: Seq<u8>, out: Seq<u8>) -> bool {
    if out.len() > orig.len() {
        result_carries(res, orig)
    } else {
        result_carries(res, out)
    }
}

/// What the dispatched strategy may produce from a decoded RGBA buffer: the
/// PNG strategy for a path classified as PNG, the JPEG quality search for
/// every other decodable input.
pub open spec fn strategy_post(
    out: Seq<u8>,
    px: Seq<u8>,
    w: int,
    h: int,
    path: Seq<char>,
    target: int,
) -> bool {
    if routed_to_png(path) {
        png_strategy_post(out, px, w, h)
    } else {
        jpeg_search_post(out, rgb_of(px), w, h, target)
    }
}

/// Whether the classifier routes a path to the PNG strategy.
pub open spec fn routed_to_png(path: Seq<char>) -> bool {
    spec_image_format(path) == Option::Some(ImageFormatKind::Png)
}

/// Whether the classifier routes a path to the JPEG strategy: every
/// recognized format but PNG is re-encoded as JPEG.
pub open spec fn routed_to_jpeg(path: Seq<char>) -> bool {
    spec_image_format(path) is Some && !routed_to_png(path)
}

/// What each error of a request says of its cause. The decoder's outcome
/// is not a function of the bytes alone (it consults a process-global hook
/// registry), so nothing ties `DecodeFailed` to the input; an unsupported
/// format means the path names no codec family; an encoder failure means
/// the input decoded, was classified, and the dispatched strategy failed —
/// on the JPEG route only the dimension check at setup can fail, and on the
/// PNG route a failing write stage means some decoded buffer's quantized
/// image does not pass the PNG encoder.
pub open spec fn error_accounted(e: CompressError, path: Seq<char>) -> bool {
    match e {
        CompressError::DecodeFailed => true,
        CompressError::UnsupportedFormat => spec_image_format(path) is None,
        CompressError::EncodeFailed(s) => {
            &&& spec_image_format(path) is Some
            &&& (routed_to_jpeg(path) ==> s == EncodeStage::Setup)
            &&& (routed_to_png(path) && s == EncodeStage::Write ==> exists|
                w: int,
                h: int,
                px: Seq<u8>,
            |
                1 <= w && 1 <= h && px.len() == 4 * w * h && !png_encodes(
                    rgb_of(#[trigger] quantized_image(px, w, h).0),
                    quantized_image(px, w, h).1,
                    w,
                    h,
                ))
        },
    }
}

/// The first value of a non-empty prefix is the first value of the whole.
proof fn lemma_prefix_first(s1: Seq<u8>, s2: Seq<u8>)
    requires
        s1.is_prefix_of(s2),
        s1.len() > 0,
    ensures
        s2.len() > 0,
        s2[0] == s1[0],
{
    assert(s2.subrange(0, s1.len() as int)[0] == s1[0]);
}

/// Compress `original` (the full byte stream of the source file at `path`)
/// so that the result fits `max_size_kb` kibibytes where the strategies
/// allow, reporting progress milestones into `trace`.
///
/// An input already within the budget short-circuits: the original bytes
/// come back unchanged and progress jumps straight to 100. On every other
/// success the result carries either the strategy output or, if that turned
/// out larger, the original bytes — so the reported size never exceeds the
/// original size.
///
/// Every error is accounted for (`error_accounted`), as far as the outside
/// calls allow: the decoder's outcome depends on a process-global hook
/// registry and the quantizer may fail for want of memory, so past the
/// budget check success can be neither promised nor tied to the bytes;
/// within the crate's own logic, a recognized non-PNG route fails only at
/// the dimension check, and an unrecognized extension alone yields
/// `UnsupportedFormat`.
pub fn compress_image_bytes(
    original: &Vec<u8>,
    path: &str,
    max_size_kb: u32,
    trace: &mut ProgressTrace,
) -> (r: Result<CompressResult, CompressError>)
    requires
        old(trace)@.len() == 0,
        original@.len() <= usize::MAX / 2,
    ensures
        progress_wf(final(trace)@),
        r matches Ok(res) ==> {
            &&& res.original_size == original@.len()
            &&& res.compressed_size <= res.original_size
            &&& final(trace)@.len() > 0
            &&& final(trace)@[0] == 0
            &&& final(trace)@.last() == 100
        },
        original@.len() <= (max_size_kb as int) * 1024 ==> (r matches Ok(res) && res.original_size
            == original@.len() && result_carries(res, original@) && final(trace)@ == seq![
            0u8,
            10u8,
            100u8,
        ]),
        r matches Ok(res) ==> (original@.len() > (max_size_kb as int) * 1024 ==> exists|
            w: int,
            h: int,
            px: Seq<u8>,
            out: Seq<u8>,
        |
            #[trigger] strategy_post(out, px, w, h, path@, (max_size_kb as int) * 1024) && 1 <= w
                && 1 <= h && px.len() == 4 * w * h && finalized(res, original@, out)),
        r matches Err(e) ==> {
            &&& original@.len() > (max_size_kb as int) * 1024
            &&& error_accounted(e, path@)
        },
{
    trace.emit(0);
    let original_size = original.len() as u64;
    trace.emit(10);
    let target_size = (max_size_kb as u64) * 1024;
    if original_size <= target_size {
        let b64 = base64_encode(original);
        trace.emit(100);
        proof {
            assert(trace@ =~= seq![0u8, 10u8, 100u8]);
        }
        return Ok(
            CompressResult {
                original_size,
                compressed_size: original_size,
                compressed_data: b64,
            },
        );
    }
    trace.emit(20);
    let (width, height, rgba) = match decode_rgba(original) {
        Ok(t) => t,
        Err(e) => {
            return Err(e);
        },
    };
    trace.emit(30);
    let format = match get_image_format(path) {
        Ok(f) => f,
        Err(e) => {
            return Err(e);
        },
    };
    trace.emit(40);
    let ghost trace_at_dispatch = trace@;
    let compressed: Vec<u8> = match format {
        ImageFormatKind::Png => {
            if width == 0 || height == 0 {
                return Err(CompressError::EncodeFailed(EncodeStage::Setup));
            }
            match compress_png(&rgba, width, height, trace) {
                Ok(v) => v,
                Err(e) => {
                    proof {
                        if let CompressError::EncodeFailed(s) = e {
                            if s == EncodeStage::Write {
                                assert(1 <= width as int && 1 <= height as int && rgba@.len() == 4
                                    * (width as int) * (height as int) && !png_encodes(
                                    rgb_of(
                                        quantized_image(rgba@, width as int, height as int).0,
                                    ),
                                    quantized_image(rgba@, width as int, height as int).1,
                                    width as int,
                                    height as int,
                                ));
                            }
                        }
                    }
                    return Err(e);
                },
            }
        },
        _ => {
            if width == 0 || height == 0 || width > 65500 || height > 65500 {
                return Err(CompressError::EncodeFailed(EncodeStage::Setup));
            }
            let rgb = rgba_to_rgb(&rgba);
            proof {
                assert(rgb@.len() == 3 * (width as int) * (height as int)) by (nonlinear_arith)
                    requires
                        rgb@.len() == 3 * (rgba@.len() / 4),
                        rgba@.len() == 4 * (width as int) * (height as int),
                ;
            }
            match compress_jpeg(&rgb, width, height, target_size, trace) {
                Ok(t) => t.0,
                Err(e) => {
                    return Err(e);
                },
            }
        },
    };
    proof {
        lemma_prefix_first(trace_at_dispatch, trace@);
    }
    trace.emit(90);
    trace.emit(90);
    let compressed_size = compressed.len() as u64;
    let final_data: &Vec<u8> = if compressed_size > original_size {
        original
    } else {
        &compressed
    };
    let final_size = final_data.len() as u64;
    let b64 = base64_encode(final_data);
    trace.emit(100);
    let res = CompressResult {
        original_size,
        compressed_size: final_size,
        compressed_data: b64,
    };
    proof {
        assert(strategy_post(
            compressed@,
            rgba@,
            width as int,
            height as int,
            path@,
            (max_size_kb as int) * 1024,
        ) && 1 <= width as int && 1 <= height as int && rgba@.len() == 4 * (width as int) * (
        height as int) && finalized(res, original@, compressed@));
    }
    Ok(res)
}

} // verus!
