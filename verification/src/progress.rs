//! Progress reporting for one compression request: a monotone sequence of
//! milestones in `0..=100`, recorded in the order they were emitted.

use vstd::prelude::*;

verus! {

/// A sequence of progress values is well formed when it never decreases and
/// every value stays within `0..=100`.
pub open spec fn progress_wf(s: Seq<u8>) -> bool {
    &&& forall|i: int, j: int| 0 <= i <= j < s.len() ==> s[i] <= s[j]
    &&& forall|i: int| 0 <= i < s.len() ==> s[i] <= 100
}

/// The milestones emitted so far during one compression request.
///
/// A request owns its trace exclusively; the caller reads the milestones
/// back once the request has finished, or relays them as they arrive.
pub struct ProgressTrace {
    values: Vec<u8>,
}

impl View for ProgressTrace {
    type V = Seq<u8>;

    closed spec fn view(&self) -> Seq<u8> {
        self.values@
    }
}

impl ProgressTrace {
    /// An empty trace, ready for a fresh request.
    pub fn new() -> (t: Self)
        ensures
            t@ == Seq::<u8>::empty(),
    {
        ProgressTrace { values: Vec::new() }
    }

    /// The milestone most recently emitted, or 0 before the first one.
    pub fn current(&self) -> (v: u8)
        ensures
            v == if self@.len() == 0 { 0u8 } else { self@.last() },
    {
        if self.values.len() == 0 {
            0
        } else {
            self.values[self.values.len() - 1]
        }
    }

    /// Record one milestone; progress never moves backwards.
    pub fn emit(&mut self, v: u8)
        requires
            progress_wf(old(self)@),
            v <= 100,
            old(self)@.len() > 0 ==> old(self)@.last() <= v,
        ensures
            final(self)@ == old(self)@.push(v),
            progress_wf(final(self)@),
    {
        self.values.push(v);
    }

    /// All milestones emitted so far.
    pub fn values(&self) -> (r: &Vec<u8>)
        ensures
            r@ == self@,
    {
        &self.values
    }
}

} // verus!
