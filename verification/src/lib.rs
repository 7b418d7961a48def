//! Safe, verified core of a btrfs subvolume utility library.
//!
//! The native btrfs utility layer is driven through a fixed C interface. This
//! crate holds everything above that boundary that can be stated and checked:
//! translating native status codes into structured errors, rendering them as
//! text, the value type describing a subvolume, the quota-group inheritance
//! specifier, the builders that assemble native call arguments, and the
//! iterator protocol over the native subvolume cursor. Callers perform the
//! native calls themselves and hand each raw outcome to the matching function
//! here, which decides what it means.
use vstd::prelude::*;

mod error;
mod iter;
mod qgroup;
mod subvol;

pub use iter::SubvolumeIterator;
pub use qgroup::QgroupInherit;
pub use subvol::IterateSubvolume;
pub use subvol::SubvolumeIdIterator;
pub use subvol::SubvolumeInfo;
pub use subvol::SubvolumeInfoIterator;
pub use subvol::Timespec;
pub use subvol::lemma_exhausted_step_is_end;
pub use subvol::lemma_id_info_steps_agree;
pub use subvol::lemma_view_conversion_preserves_cursor;
pub use subvol::nil_uuid;
pub use subvol::spec_id_step;
pub use subvol::spec_info_step;
pub use subvol::subvolume_path;
pub use subvol::uuid_bytes;

pub use error::Errno;
pub use error::Error;
pub use error::ErrorKind;
pub use error::digits_value;
pub use error::lemma_code_from_code;
pub use error::lemma_dec_digits_value;
pub use error::lemma_from_code_code;
pub use error::lemma_message_shape;
pub use error::lower_byte;
pub use error::lower_first;
pub use error::dec_digits;
pub use error::unknown_message;
pub use error::unknown_prefix;

verus! {

/// The subvolume ID of the filesystem root tree.
pub const FS_TREE_OBJECTID: u64 = 5;

/// Native flag: delete subvolumes beneath the given one first.
pub const DELETE_SUBVOLUME_RECURSIVE: i32 = 1;

/// Native flag: create the snapshot read-only.
pub const CREATE_SNAPSHOT_READ_ONLY: i32 = 1;

/// Native flag: snapshot subvolumes beneath the source as well.
pub const CREATE_SNAPSHOT_RECURSIVE: i32 = 2;

/// Native flag: traverse the cursor post-order.
pub const SUBVOLUME_ITERATOR_POST_ORDER: i32 = 1;

/// Whether a path holds an embedded NUL byte. Such a path cannot cross the
/// native boundary: it is a construction-time, programming-error class
/// failure, so callers must rule it out before marshalling.
pub fn contains_nul(path: &[u8]) -> (r: bool)
    ensures
        r == path@.contains(0u8),
{
    let mut i: usize = 0;
    while i < path.len()
        invariant
            i <= path@.len(),
            forall|j: int| 0 <= j < i ==> path@[j] != 0u8,
        decreases path@.len() - i,
    {
        if path[i] == 0 {
            return true;
        }
        i = i + 1;
    }
    false
}

/// Concludes a native filesystem-sync call: `Ok` on the OK status, otherwise
/// the translated error. Call this immediately after the native call returns.
pub fn sync(status: u32) -> (r: Result<(), Error>)
    ensures
        status == 0 <==> r is Ok,
        r matches Err(e) ==> e.kind == ErrorKind::spec_from_code(status),
{
    if status == 0 {
        Ok(())
    } else {
        Err(Error::new(status))
    }
}

/// Concludes a native is-subvolume test: the OK status means `true`, and the
/// not-a-subvolume and not-btrfs statuses are benign `false` answers rather
/// than errors; every other status is a genuine error. Call this immediately
/// after the native call returns.
pub fn is_subvolume(status: u32) -> (r: Result<bool, Error>)
    ensures
        status == 0 ==> r == Result::<bool, Error>::Ok(true),
        status == ErrorKind::NotBtrfs.spec_code() || status == ErrorKind::NotSubvolume.spec_code()
            ==> r == Result::<bool, Error>::Ok(false),
        !(status == 0 || status == ErrorKind::NotBtrfs.spec_code() || status
            == ErrorKind::NotSubvolume.spec_code()) ==> (r matches Err(e) && e.kind
            == ErrorKind::spec_from_code(status)),
{
    if status == 0 {
        Ok(true)
    } else if status == 4 || status == 5 {
        Ok(false)
    } else {
        Err(Error::new(status))
    }
}

/// Concludes a native subvolume-ID lookup: on the OK status the ID the call
/// produced, otherwise the translated error. Call this immediately after the
/// native call returns.
pub fn subvolume_id(status: u32, id: u64) -> (r: Result<u64, Error>)
    ensures
        status == 0 <==> r is Ok,
        r matches Ok(v) ==> v == id,
        r matches Err(e) ==> e.kind == ErrorKind::spec_from_code(status),
{
    if status == 0 {
        Ok(id)
    } else {
        Err(Error::new(status))
    }
}

/// Concludes a native subvolume-info query: on the OK status the record the
/// call filled, otherwise the translated error. Call this immediately after
/// the native call returns.
pub fn subvolume_info(status: u32, info: SubvolumeInfo) -> (r: Result<SubvolumeInfo, Error>)
    ensures
        status == 0 <==> r is Ok,
        r matches Ok(v) ==> v == info,
        r matches Err(e) ==> e.kind == ErrorKind::spec_from_code(status),
{
    if status == 0 {
        Ok(info)
    } else {
        Err(Error::new(status))
    }
}

/// Concludes a native read-only query: on the OK status the answer the call
/// produced, otherwise the translated error. Call this immediately after the
/// native call returns.
pub fn subvolume_read_only(status: u32, read_only: bool) -> (r: Result<bool, Error>)
    ensures
        status == 0 <==> r is Ok,
        r matches Ok(v) ==> v == read_only,
        r matches Err(e) ==> e.kind == ErrorKind::spec_from_code(status),
{
    if status == 0 {
        Ok(read_only)
    } else {
        Err(Error::new(status))
    }
}

/// Concludes a native read-only update: `Ok` on the OK status, otherwise the
/// translated error. Call this immediately after the native call returns.
pub fn set_subvolume_read_only(status: u32) -> (r: Result<(), Error>)
    ensures
        status == 0 <==> r is Ok,
        r matches Err(e) ==> e.kind == ErrorKind::spec_from_code(status),
{
    if status == 0 {
        Ok(())
    } else {
        Err(Error::new(status))
    }
}

/// Options of a subvolume deletion.
pub struct DeleteSubvolumeOptions {
    pub recursive: bool,
}

impl DeleteSubvolumeOptions {
    /// The default options: not recursive.
    pub fn new() -> (r: DeleteSubvolumeOptions)
        ensures
            !r.recursive,
    {
        DeleteSubvolumeOptions { recursive: false }
    }

    /// When true, delete subvolumes beneath the given subvolume before
    /// attempting to delete the given subvolume.
    pub fn recursive(&mut self, recursive: bool) -> (r: &mut DeleteSubvolumeOptions)
        ensures
            *r == (DeleteSubvolumeOptions { recursive }),
            *final(self) == *final(r),
    {
        self.recursive = recursive;
        self
    }

    /// The flags word of the native deletion call these options stand for.
    pub open spec fn spec_flags(&self) -> i32 {
        if self.recursive {
            DELETE_SUBVOLUME_RECURSIVE
        } else {
            0
        }
    }

    /// Assembles the flags word to hand to the native deletion call.
    pub fn flags(&self) -> (f: i32)
        ensures
            f == self.spec_flags(),
    {
        if self.recursive {
            DELETE_SUBVOLUME_RECURSIVE
        } else {
            0
        }
    }

    /// Concludes a native deletion call made with these options: `Ok` on the
    /// OK status, otherwise the translated error. Call this immediately after
    /// the native call returns.
    pub fn delete(&self, status: u32) -> (r: Result<(), Error>)
        ensures
            status == 0 <==> r is Ok,
            r matches Err(e) ==> e.kind == ErrorKind::spec_from_code(status),
    {
        if status == 0 {
            Ok(())
        } else {
            Err(Error::new(status))
        }
    }
}

/// Concludes a native subvolume deletion made with the default options. See
/// [`DeleteSubvolumeOptions`] for more options.
pub fn delete_subvolume(status: u32) -> (r: Result<(), Error>)
    ensures
        status == 0 <==> r is Ok,
        r matches Err(e) ==> e.kind == ErrorKind::spec_from_code(status),
{
    DeleteSubvolumeOptions::new().delete(status)
}

/// Options of a subvolume creation.
pub struct CreateSubvolumeOptions {
    pub qgroup: Option<QgroupInherit>,
}

impl CreateSubvolumeOptions {
    /// The default options: no quota-group inheritance.
    pub fn new() -> (r: CreateSubvolumeOptions)
        ensures
            r.qgroup is None,
    {
        CreateSubvolumeOptions { qgroup: None }
    }

    /// Sets the quota groups the new subvolume should be added to.
    pub fn qgroup(&mut self, qgroup: Option<QgroupInherit>) -> (r: &mut CreateSubvolumeOptions)
        ensures
            *r == (CreateSubvolumeOptions { qgroup }),
            *final(self) == *final(r),
    {
        self.qgroup = qgroup;
        self
    }

    /// Concludes a native creation call made with these options: `Ok` on the
    /// OK status, otherwise the translated error. Call this immediately after
    /// the native call returns.
    pub fn create(&self, status: u32) -> (r: Result<(), Error>)
        ensures
            status == 0 <==> r is Ok,
            r matches Err(e) ==> e.kind == ErrorKind::spec_from_code(status),
    {
        if status == 0 {
            Ok(())
        } else {
            Err(Error::new(status))
        }
    }
}

/// Concludes a native subvolume creation made with the default options. See
/// [`CreateSubvolumeOptions`] for more options.
pub fn create_subvolume(status: u32) -> (r: Result<(), Error>)
    ensures
        status == 0 <==> r is Ok,
        r matches Err(e) ==> e.kind == ErrorKind::spec_from_code(status),
{
    CreateSubvolumeOptions::new().create(status)
}

/// Options of a snapshot creation.
pub struct CreateSnapshotOptions {
    pub qgroup: Option<QgroupInherit>,
    pub readonly: bool,
    pub recursive: bool,
}

impl CreateSnapshotOptions {
    /// The default options: writable, not recursive, no quota-group
    /// inheritance.
    pub fn new() -> (r: CreateSnapshotOptions)
        ensures
            r.qgroup is None,
            !r.readonly,
            !r.recursive,
    {
        CreateSnapshotOptions { qgroup: None, readonly: false, recursive: false }
    }

    /// Sets the quota groups the new snapshot should be added to.
    pub fn qgroup(&mut self, qgroup: Option<QgroupInherit>) -> (r: &mut CreateSnapshotOptions)
        ensures
            *r == (CreateSnapshotOptions {
                qgroup,
                readonly: old(self).readonly,
                recursive: old(self).recursive,
            }),
            *final(self) == *final(r),
    {
        self.qgroup = qgroup;
        self
    }

    /// When true, create the snapshot read-only.
    pub fn readonly(&mut self, readonly: bool) -> (r: &mut CreateSnapshotOptions)
        ensures
            *r == (CreateSnapshotOptions {
                qgroup: old(self).qgroup,
                readonly,
                recursive: old(self).recursive,
            }),
            *final(self) == *final(r),
    {
        self.readonly = readonly;
        self
    }

    /// When true, snapshot subvolumes beneath the source as well.
    pub fn recursive(&mut self, recursive: bool) -> (r: &mut CreateSnapshotOptions)
        ensures
            *r == (CreateSnapshotOptions {
                qgroup: old(self).qgroup,
                readonly: old(self).readonly,
                recursive,
            }),
            *final(self) == *final(r),
    {
        self.recursive = recursive;
        self
    }

    /// The flags word of the native snapshot call these options stand for.
    /// The two flag bits are distinct, so their sum is their union.
    pub open spec fn spec_flags(&self) -> i32 {
        ((if self.readonly {
            CREATE_SNAPSHOT_READ_ONLY
        } else {
            0
        }) + (if self.recursive {
            CREATE_SNAPSHOT_RECURSIVE
        } else {
            0
        })) as i32
    }

    /// Assembles the flags word to hand to the native snapshot call.
    pub fn flags(&self) -> (f: i32)
        ensures
            f == self.spec_flags(),
    {
        let mut f: i32 = 0;
        if self.readonly {
            f = f + CREATE_SNAPSHOT_READ_ONLY;
        }
        if self.recursive {
            f = f + CREATE_SNAPSHOT_RECURSIVE;
        }
        f
    }

    /// Concludes a native snapshot call made with these options: `Ok` on the
    /// OK status, otherwise the translated error. Call this immediately after
    /// the native call returns.
    pub fn create(&self, status: u32) -> (r: Result<(), Error>)
        ensures
            status == 0 <==> r is Ok,
            r matches Err(e) ==> e.kind == ErrorKind::spec_from_code(status),
    {
        if status == 0 {
            Ok(())
        } else {
            Err(Error::new(status))
        }
    }
}

} // verus!
