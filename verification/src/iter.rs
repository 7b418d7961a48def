use vstd::prelude::*;

verus! {

/// The protocol state of one native subvolume cursor.
///
/// A cursor is a single-owner native resource that yields entries one native
/// call at a time until it reports its end-of-iteration sentinel. The owner of
/// the native handle drives the calls; this type records the one fact the
/// safe layer decides on: whether the sentinel has been observed. Once it has,
/// every later step signals end-of-sequence without consulting the native
/// layer again, so a finished iteration can never resurrect an entry or an
/// error.
#[derive(Clone, Copy, Debug, PartialEq, Eq, Structural)]
pub struct SubvolumeIterator {
    pub exhausted: bool,
}

impl SubvolumeIterator {
    /// A cursor that has not yet observed its sentinel.
    pub fn new() -> (r: SubvolumeIterator)
        ensures
            !r.exhausted,
    {
        SubvolumeIterator { exhausted: false }
    }
}

} // verus!
