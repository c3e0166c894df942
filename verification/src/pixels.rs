//! Pixel buffer conversion: the JPEG strategy works on RGB pixels, while the
//! decoder hands out RGBA, so the alpha byte of every pixel is dropped.

use vstd::prelude::*;

verus! {

/// The RGB buffer obtained from an RGBA buffer by dropping the alpha byte
/// of every pixel.
pub open spec fn rgb_of(rgba: Seq<u8>) -> Seq<u8> {
    Seq::new(3 * (rgba.len() / 4), |i: int| rgba[4 * (i / 3) + i % 3])
}

/// Drop the alpha channel of an RGBA pixel buffer.
pub fn rgba_to_rgb(rgba: &Vec<u8>) -> (r: Vec<u8>)
    ensures
        r@ == rgb_of(rgba@),
        r@.len() == 3 * (rgba@.len() / 4),
{
    let len = rgba.len();
    let n = len / 4;
    let mut out: Vec<u8> = Vec::new();
    let mut p: usize = 0;
    while p < n
        invariant
            p <= n,
            len == rgba@.len(),
            n == rgba@.len() / 4,
            out@.len() == 3 * p,
            forall|i: int| 0 <= i < out@.len() ==> out@[i] == rgba@[4 * (i / 3) + i % 3],
        decreases n - p,
    {
        assert(4 * p + 3 < rgba@.len());
        out.push(rgba[4 * p]);
        out.push(rgba[4 * p + 1]);
        out.push(rgba[4 * p + 2]);
        assert forall|i: int| 0 <= i < out@.len() implies out@[i] == rgba@[4 * (i / 3) + i
            % 3] by {
            if i >= 3 * p {
                assert(i / 3 == p && (i == 3 * p + i % 3));
            }
        }
        p += 1;
    }
    assert(out@ =~= rgb_of(rgba@));
    out
}

} // verus!
