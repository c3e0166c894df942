//! Bulk packaging support: prior compression results travel as base64
//! transport strings, and are decoded back to raw bytes before a caller
//! writes them into a container file.

use crate::codecs::{base64_decode, base64_of};
use vstd::prelude::*;

verus! {

/// One named image payload, its bytes in base64 transport encoding.
#[derive(Debug)]
pub struct ImageData {
    pub name: String,
    pub data: String,
}

/// Whether an entry's payload is a well-formed transport encoding.
pub open spec fn entry_decodable(e: ImageData) -> bool {
    exists|v: Seq<u8>| e.data@ == base64_of(v)
}

/// Decode every entry's payload back to raw bytes, keeping names and order.
///
/// Fails with the index of the first entry whose payload is not a valid
/// transport encoding; every entry before that index is valid.
pub fn decode_archive_entries(images: &Vec<ImageData>) -> (r: Result<
    Vec<(String, Vec<u8>)>,
    usize,
>)
    ensures
        r matches Ok(v) ==> {
            &&& v@.len() == images@.len()
            &&& forall|i: int| 0 <= i < v@.len() ==> v@[i].0@ == images@[i].name@
            &&& forall|i: int|
                0 <= i < v@.len() ==> images@[i].data@ == base64_of(#[trigger] v@[i].1@)
        },
        r matches Err(ix) ==> {
            &&& ix < images@.len()
            &&& !entry_decodable(images@[ix as int])
            &&& forall|i: int| 0 <= i < ix ==> entry_decodable(#[trigger] images@[i])
        },
{
    let mut out: Vec<(String, Vec<u8>)> = Vec::new();
    let mut i: usize = 0;
    while i < images.len()
        invariant
            i <= images@.len(),
            out@.len() == i,
            forall|k: int| 0 <= k < i ==> out@[k].0@ == images@[k].name@,
            forall|k: int| 0 <= k < i ==> images@[k].data@ == base64_of(#[trigger] out@[k].1@),
        decreases images@.len() - i,
    {
        match base64_decode(images[i].data.as_str()) {
            Some(bytes) => {
                out.push((images[i].name.clone(), bytes));
            },
            None => {
                proof {
                    assert forall|k: int| 0 <= k < i implies entry_decodable(
                        #[trigger] images@[k],
                    ) by {
                        assert(images@[k].data@ == base64_of(out@[k].1@));
                    }
                }
                return Err(i);
            },
        }
        i += 1;
    }
    Ok(out)
}

} // verus!
