//! JPEG quality search: a bounded binary search over a fixed ladder of
//! quality settings, looking for the highest quality whose encoded size
//! stays within the byte budget.

use crate::codecs::{encode_jpeg, jpeg_encoding};
use crate::progress::{progress_wf, ProgressTrace};
use crate::CompressError;
use vstd::prelude::*;

verus! {

/// The fixed ladder of candidate JPEG qualities, in ascending order.
pub open spec fn quality_ladder() -> Seq<u8> {
    seq![25u8, 35u8, 45u8, 55u8, 65u8, 75u8, 85u8]
}

/// The quality at one rung of the ladder.
fn ladder_quality(i: usize) -> (q: u8)
    requires
        i < quality_ladder().len(),
    ensures
        q == quality_ladder()[i as int],
{
    match i {
        0 => 25,
        1 => 35,
        2 => 45,
        3 => 55,
        4 => 65,
        5 => 75,
        _ => 85,
    }
}

/// Whether the encoding at rung `i` of the ladder fits the byte budget.
pub open spec fn rung_fits(px: Seq<u8>, w: int, h: int, target: int, i: int) -> bool {
    jpeg_encoding(px, w, h, quality_ladder()[i]).len() <= target
}

/// The monotonicity assumption the search leans on: along the ladder, a
/// higher quality never encodes smaller. Real encoders can break this for
/// particular images; the search result is pinned down exactly only where
/// it holds.
pub open spec fn sizes_monotone(px: Seq<u8>, w: int, h: int) -> bool {
    forall|i: int, j: int|
        0 <= i <= j < quality_ladder().len() ==> jpeg_encoding(
            px,
            w,
            h,
            quality_ladder()[i],
        ).len() <= jpeg_encoding(px, w, h, quality_ladder()[j]).len()
}

/// What the quality search returns: always an encoding at some rung of the
/// ladder; an over-budget result only ever comes from the lowest rung; and
/// under the monotonicity assumption, the encoding at the highest rung that
/// fits the budget, or at the lowest rung when none fits.
pub open spec fn jpeg_search_post(out: Seq<u8>, px: Seq<u8>, w: int, h: int, target: int) -> bool {
    &&& exists|i: int|
        0 <= i < quality_ladder().len() && out == jpeg_encoding(px, w, h, quality_ladder()[i])
    &&& (out.len() > target ==> out == jpeg_encoding(px, w, h, quality_ladder()[0]))
    &&& (sizes_monotone(px, w, h) ==> if exists|i: int|
        0 <= i < quality_ladder().len() && rung_fits(px, w, h, target, i) {
        exists|i: int|
            {
                &&& 0 <= i < quality_ladder().len()
                &&& rung_fits(px, w, h, target, i)
                &&& forall|j: int|
                    i < j < quality_ladder().len() ==> !rung_fits(px, w, h, target, j)
                &&& out == jpeg_encoding(px, w, h, quality_ladder()[i])
            }
    } else {
        out == jpeg_encoding(px, w, h, quality_ladder()[0])
    })
}

/// Compress an RGB pixel buffer as JPEG, searching the quality ladder for
/// the highest quality that fits `target_size`; when no rung fits, encode
/// at the lowest rung and return that result unconditionally — an
/// unreachable budget is never an error, and on the admitted inputs the
/// encoder cannot fail, so the search always succeeds.
///
/// Returns the encoded bytes together with the number of encode calls made,
/// which never exceeds four: at most three probes of the ladder plus at
/// most one fallback encode.
pub fn compress_jpeg(
    rgb: &Vec<u8>,
    width: u32,
    height: u32,
    target_size: u64,
    trace: &mut ProgressTrace,
) -> (r: Result<(Vec<u8>, usize), CompressError>)
    requires
        1 <= width <= 65500,
        1 <= height <= 65500,
        rgb@.len() == 3 * (width as int) * (height as int),
        progress_wf(old(trace)@),
        old(trace)@.len() > 0 ==> old(trace)@.last() <= 40,
    ensures
        progress_wf(final(trace)@),
        old(trace)@.is_prefix_of(final(trace)@),
        r is Ok,
        r matches Ok(t) ==> {
            &&& jpeg_search_post(t.0@, rgb@, width as int, height as int, target_size as int)
            &&& t.1 <= 4
            &&& final(trace)@.len() > 0 && final(trace)@.last() == 90
        },
        r matches Ok(t) ==> ((sizes_monotone(rgb@, width as int, height as int) && (exists|i: int|
            0 <= i < quality_ladder().len() && rung_fits(
                rgb@,
                width as int,
                height as int,
                target_size as int,
                i,
            ))) ==> t.0@.len() <= target_size),
{
    let ghost px = rgb@;
    let ghost w = width as int;
    let ghost h = height as int;
    let ghost tgt = target_size as int;
    let mut left: usize = 0;
    let mut right: usize = 6;
    let mut best: Option<Vec<u8>> = None;
    let ghost mut best_i: int = 0;
    let mut attempts: usize = 0;
    trace.emit(40);
    while left <= right
        invariant_except_break
            right < 7,
            left <= right + 1,
            attempts <= 3,
            attempts == 0 ==> right + 1 - left <= 7,
            attempts == 1 ==> right + 1 - left <= 3,
            attempts == 2 ==> right + 1 - left <= 1,
            attempts == 3 ==> right + 1 - left <= 0,
            best is None ==> left == 0,
            best matches Some(b) ==> {
                &&& 0 <= best_i < 7
                &&& best_i <= right
                &&& left == best_i + 1
                &&& rung_fits(px, w, h, tgt, best_i)
                &&& b@ == jpeg_encoding(px, w, h, quality_ladder()[best_i])
            },
            sizes_monotone(px, w, h) ==> forall|j: int|
                right < j < 7 ==> !rung_fits(px, w, h, tgt, j),
            1 <= width <= 65500,
            1 <= height <= 65500,
            px == rgb@ && w == width as int && h == height as int && tgt == target_size as int,
            rgb@.len() == 3 * w * h,
            progress_wf(trace@),
            old(trace)@.is_prefix_of(trace@),
            trace@.len() > 0,
            trace@.last() == 40 + (attempts * 25) / 2,
        ensures
            attempts <= 3,
            px == rgb@ && w == width as int && h == height as int && tgt == target_size as int,
            progress_wf(trace@),
            old(trace)@.is_prefix_of(trace@),
            trace@.len() > 0,
            trace@.last() <= 90,
            best is None ==> !rung_fits(px, w, h, tgt, 0),
            best matches Some(b) ==> {
                &&& 0 <= best_i < 7
                &&& rung_fits(px, w, h, tgt, best_i)
                &&& b@ == jpeg_encoding(px, w, h, quality_ladder()[best_i])
                &&& (sizes_monotone(px, w, h) ==> forall|j: int|
                    best_i < j < 7 ==> !rung_fits(px, w, h, tgt, j))
            },
        decreases right + 1 - left,
    {
        let mid = (left + right) / 2;
        let q = ladder_quality(mid);
        attempts += 1;
        let pct_raw = attempts * 100 / 4;
        let pct = if pct_raw > 90 {
            90
        } else {
            pct_raw
        };
        trace.emit((40 + pct / 2) as u8);
        match encode_jpeg(rgb, width, height, q) {
            Err(e) => {
                return Err(e);
            },
            Ok(data) => {
                let size = data.len() as u64;
                if size <= target_size {
                    proof {
                        best_i = mid as int;
                    }
                    best = Some(data);
                    if mid == 6 {
                        break;
                    }
                    left = mid + 1;
                } else {
                    proof {
                        if sizes_monotone(px, w, h) {
                            assert forall|j: int| (mid as int) <= j < 7 implies !rung_fits(
                                px,
                                w,
                                h,
                                tgt,
                                j,
                            ) by {
                                assert(jpeg_encoding(px, w, h, quality_ladder()[mid as int]).len()
                                    <= jpeg_encoding(px, w, h, quality_ladder()[j]).len());
                            }
                        }
                    }
                    if mid == 0 {
                        break;
                    }
                    right = mid - 1;
                }
            },
        }
    }
    trace.emit(90);
    match best {
        Some(data) => {
            proof {
                assert(jpeg_search_post(data@, px, w, h, tgt)) by {
                    assert(0 <= best_i < quality_ladder().len() && data@ == jpeg_encoding(
                        px,
                        w,
                        h,
                        quality_ladder()[best_i],
                    ));
                    assert(rung_fits(px, w, h, tgt, best_i));
                }
            }
            Ok((data, attempts))
        },
        None => {
            let q0 = ladder_quality(0);
            match encode_jpeg(rgb, width, height, q0) {
                Ok(data) => {
                    proof {
                        if sizes_monotone(px, w, h) && (exists|i: int|
                            0 <= i < quality_ladder().len() && rung_fits(px, w, h, tgt, i)) {
                            let i = choose|i: int|
                                0 <= i < quality_ladder().len() && rung_fits(px, w, h, tgt, i);
                            assert(jpeg_encoding(px, w, h, quality_ladder()[0]).len()
                                <= jpeg_encoding(px, w, h, quality_ladder()[i]).len());
                            assert(false);
                        }
                        assert(jpeg_search_post(data@, px, w, h, tgt)) by {
                            assert(0 <= 0 < quality_ladder().len() && data@ == jpeg_encoding(
                                px,
                                w,
                                h,
                                quality_ladder()[0],
                            ));
                        }
                    }
                    Ok((data, attempts + 1))
                },
                Err(e) => Err(e),
            }
        },
    }
}

} // verus!
