use vstd::prelude::*;

use crate::error::Error;

verus! {

/// A quota-group inheritance specifier: the ordered list of quota-group IDs
/// that a subvolume or snapshot should be added to at creation time.
///
/// The list is created empty and only ever grows by appending; duplicates are
/// permitted, since their meaning belongs to the native layer. Callers that
/// perform the native creation call read the list out through [`Self::groups`]
/// and marshal it into the native argument encoding.
pub struct QgroupInherit {
    pub ids: Vec<u64>,
}

impl QgroupInherit {
    /// Creates an empty specifier.
    pub fn new() -> (r: Result<QgroupInherit, Error>)
        ensures
            r matches Ok(q) && q.ids@ == Seq::<u64>::empty(),
    {
        Ok(QgroupInherit { ids: Vec::new() })
    }

    /// Appends inheritance from a quota group to this specifier.
    pub fn add_group(&mut self, qgroup_id: u64) -> (r: Result<(), Error>)
        ensures
            r is Ok,
            final(self).ids@ == old(self).ids@.push(qgroup_id),
    {
        self.ids.push(qgroup_id);
        Ok(())
    }

    /// Returns the quota groups this specifier contains, in insertion order.
    pub fn groups(&self) -> (r: &[u64])
        ensures
            r@ == self.ids@,
    {
        self.ids.as_slice()
    }
}

} // verus!
