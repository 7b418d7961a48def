use vstd::prelude::*;

use crate::error::Errno;
use crate::error::Error;
use crate::error::ErrorKind;
use crate::iter::SubvolumeIterator;
use crate::FS_TREE_OBJECTID;
use crate::SUBVOLUME_ITERATOR_POST_ORDER;
use uuid::Uuid;

verus! {

/// A point in time: seconds since the Unix epoch plus nanoseconds since that
/// second, as the native layer reports it.
#[derive(Clone, Copy, Debug, PartialEq, Eq, Structural)]
pub struct Timespec {
    pub sec: i64,
    pub nsec: i64,
}

/// Information about a btrfs subvolume, mirroring the fixed-size record that
/// the native layer fills: raw integer and byte fields, read through typed
/// accessors that turn the zero-means-absent conventions into options.
#[derive(Clone, Copy, Debug)]
pub struct SubvolumeInfo {
    pub id: u64,
    pub parent_id: u64,
    pub dir_id: u64,
    pub flags: u64,
    pub uuid: [u8; 16],
    pub parent_uuid: [u8; 16],
    pub received_uuid: [u8; 16],
    pub generation: u64,
    pub ctransid: u64,
    pub otransid: u64,
    pub stransid: u64,
    pub rtransid: u64,
    pub ctime: Timespec,
    pub otime: Timespec,
    pub stime: Timespec,
    pub rtime: Timespec,
}

/// The native UUID value type, opaque to this crate; what it holds is named
/// by [`uuid_bytes`].
#[verifier::external_type_specification]
#[verifier::external_body]
pub struct ExUuid(Uuid);

/// The sixteen bytes a UUID value holds.
pub uninterp spec fn uuid_bytes(u: Uuid) -> Seq<u8>;

/// The bytes of the nil UUID: all zero.
pub open spec fn nil_uuid() -> Seq<u8> {
    Seq::new(16, |i: int| 0u8)
}

/// Relies on uuid::Uuid::from_bytes: the built UUID holds exactly the given
/// bytes.
pub assume_specification[ Uuid::from_bytes ](bytes: [u8; 16]) -> (r: Uuid)
    ensures
        uuid_bytes(r) == bytes@,
;

/// Relies on uuid::Uuid::is_nil: true exactly when the UUID is all zeros.
pub assume_specification[ Uuid::is_nil ](u: &Uuid) -> (r: bool)
    ensures
        r == (uuid_bytes(*u) == nil_uuid()),
;

impl SubvolumeInfo {
    /// An all-zero record, ready to be filled from a native call's output.
    pub fn new() -> (r: SubvolumeInfo)
        ensures
            r == SubvolumeInfo::spec_zero(),
    {
        SubvolumeInfo {
            id: 0,
            parent_id: 0,
            dir_id: 0,
            flags: 0,
            uuid: [0u8, 0, 0, 0, 0, 0, 0, 0, 0, 0, 0, 0, 0, 0, 0, 0],
            parent_uuid: [0u8, 0, 0, 0, 0, 0, 0, 0, 0, 0, 0, 0, 0, 0, 0, 0],
            received_uuid: [0u8, 0, 0, 0, 0, 0, 0, 0, 0, 0, 0, 0, 0, 0, 0, 0],
            generation: 0,
            ctransid: 0,
            otransid: 0,
            stransid: 0,
            rtransid: 0,
            ctime: Timespec { sec: 0, nsec: 0 },
            otime: Timespec { sec: 0, nsec: 0 },
            stime: Timespec { sec: 0, nsec: 0 },
            rtime: Timespec { sec: 0, nsec: 0 },
        }
    }

    /// The all-zero record.
    pub open spec fn spec_zero() -> SubvolumeInfo {
        SubvolumeInfo {
            id: 0,
            parent_id: 0,
            dir_id: 0,
            flags: 0,
            uuid: [0u8, 0, 0, 0, 0, 0, 0, 0, 0, 0, 0, 0, 0, 0, 0, 0],
            parent_uuid: [0u8, 0, 0, 0, 0, 0, 0, 0, 0, 0, 0, 0, 0, 0, 0, 0],
            received_uuid: [0u8, 0, 0, 0, 0, 0, 0, 0, 0, 0, 0, 0, 0, 0, 0, 0],
            generation: 0,
            ctransid: 0,
            otransid: 0,
            stransid: 0,
            rtransid: 0,
            ctime: Timespec { sec: 0, nsec: 0 },
            otime: Timespec { sec: 0, nsec: 0 },
            stime: Timespec { sec: 0, nsec: 0 },
            rtime: Timespec { sec: 0, nsec: 0 },
        }
    }

    /// Returns the ID of this subvolume, unique across the filesystem.
    pub fn id(&self) -> (r: u64)
        ensures
            r == self.id,
    {
        self.id
    }

    /// Returns the ID of the subvolume containing this subvolume, or `None`
    /// for the root subvolume or for orphaned (deleted but not yet cleaned
    /// up) subvolumes, which the native layer reports as zero.
    pub fn parent_id(&self) -> (r: Option<u64>)
        ensures
            r == (if self.parent_id == 0 {
                Option::<u64>::None
            } else {
                Option::<u64>::Some(self.parent_id)
            }),
    {
        if self.parent_id == 0 {
            None
        } else {
            Some(self.parent_id)
        }
    }

    /// Returns the inode number of the directory containing this subvolume in
    /// its parent, or `None` for the root subvolume or orphaned subvolumes.
    pub fn dir_id(&self) -> (r: Option<u64>)
        ensures
            r == (if self.dir_id == 0 {
                Option::<u64>::None
            } else {
                Option::<u64>::Some(self.dir_id)
            }),
    {
        if self.dir_id == 0 {
            None
        } else {
            Some(self.dir_id)
        }
    }

    /// Returns the on-disk root item flags.
    pub fn flags(&self) -> (r: u64)
        ensures
            r == self.flags,
    {
        self.flags
    }

    /// Returns the UUID of this subvolume.
    pub fn uuid(&self) -> (r: Uuid)
        ensures
            uuid_bytes(r) == self.uuid@,
    {
        Uuid::from_bytes(self.uuid)
    }

    /// Returns the UUID of the subvolume this subvolume is a snapshot of, or
    /// `None` if this subvolume is not a snapshot (an all-zero field).
    pub fn parent_uuid(&self) -> (r: Option<Uuid>)
        ensures
            (self.parent_uuid@ == nil_uuid()) <==> r is None,
            r matches Some(u) ==> uuid_bytes(u) == self.parent_uuid@,
    {
        let u = Uuid::from_bytes(self.parent_uuid);
        if u.is_nil() {
            None
        } else {
            Some(u)
        }
    }

    /// Returns the UUID of the subvolume this subvolume was received from, or
    /// `None` if this subvolume was not received (an all-zero field).
    pub fn received_uuid(&self) -> (r: Option<Uuid>)
        ensures
            (self.received_uuid@ == nil_uuid()) <==> r is None,
            r matches Some(u) ==> uuid_bytes(u) == self.received_uuid@,
    {
        let u = Uuid::from_bytes(self.received_uuid);
        if u.is_nil() {
            None
        } else {
            Some(u)
        }
    }

    /// Returns the transaction ID of the subvolume root.
    pub fn generation(&self) -> (r: u64)
        ensures
            r == self.generation,
    {
        self.generation
    }

    /// Returns the transaction ID when an inode in this subvolume was last
    /// changed.
    pub fn ctransid(&self) -> (r: u64)
        ensures
            r == self.ctransid,
    {
        self.ctransid
    }

    /// Returns the transaction ID when this subvolume was created.
    pub fn otransid(&self) -> (r: u64)
        ensures
            r == self.otransid,
    {
        self.otransid
    }

    /// Returns the transaction ID of the sent subvolume this subvolume was
    /// received from, or `None` (reported as zero) if it was not received.
    pub fn stransid(&self) -> (r: Option<u64>)
        ensures
            r == (if self.stransid == 0 {
                Option::<u64>::None
            } else {
                Option::<u64>::Some(self.stransid)
            }),
    {
        if self.stransid == 0 {
            None
        } else {
            Some(self.stransid)
        }
    }

    /// Returns the transaction ID when this subvolume was received, or `None`
    /// (reported as zero) if it was not received.
    pub fn rtransid(&self) -> (r: Option<u64>)
        ensures
            r == (if self.rtransid == 0 {
                Option::<u64>::None
            } else {
                Option::<u64>::Some(self.rtransid)
            }),
    {
        if self.rtransid == 0 {
            None
        } else {
            Some(self.rtransid)
        }
    }

    /// Returns the last change time, in seconds since the Unix epoch.
    pub fn ctime(&self) -> (r: i64)
        ensures
            r == self.ctime.sec,
    {
        self.ctime.sec
    }

    /// Returns the nanoseconds part of the last change time.
    pub fn ctime_nsec(&self) -> (r: i64)
        ensures
            r == self.ctime.nsec,
    {
        self.ctime.nsec
    }

    /// Returns the creation time, in seconds since the Unix epoch.
    pub fn otime(&self) -> (r: i64)
        ensures
            r == self.otime.sec,
    {
        self.otime.sec
    }

    /// Returns the nanoseconds part of the creation time.
    pub fn otime_nsec(&self) -> (r: i64)
        ensures
            r == self.otime.nsec,
    {
        self.otime.nsec
    }

    /// Returns the seconds part of the send time, or `None` if zero. Usually
    /// absent unless set by userspace after the subvolume was received.
    pub fn stime(&self) -> (r: Option<i64>)
        ensures
            r == (if self.stime.sec == 0 {
                Option::<i64>::None
            } else {
                Option::<i64>::Some(self.stime.sec)
            }),
    {
        if self.stime.sec == 0 {
            None
        } else {
            Some(self.stime.sec)
        }
    }

    /// Returns the nanoseconds part of the send time, or `None` if zero.
    pub fn stime_nsec(&self) -> (r: Option<i64>)
        ensures
            r == (if self.stime.nsec == 0 {
                Option::<i64>::None
            } else {
                Option::<i64>::Some(self.stime.nsec)
            }),
    {
        if self.stime.nsec == 0 {
            None
        } else {
            Some(self.stime.nsec)
        }
    }

    /// Returns the seconds part of the receive time, or `None` if zero.
    pub fn rtime(&self) -> (r: Option<i64>)
        ensures
            r == (if self.rtime.sec == 0 {
                Option::<i64>::None
            } else {
                Option::<i64>::Some(self.rtime.sec)
            }),
    {
        if self.rtime.sec == 0 {
            None
        } else {
            Some(self.rtime.sec)
        }
    }

    /// Returns the nanoseconds part of the receive time, or `None` if zero.
    pub fn rtime_nsec(&self) -> (r: Option<i64>)
        ensures
            r == (if self.rtime.nsec == 0 {
                Option::<i64>::None
            } else {
                Option::<i64>::Some(self.rtime.nsec)
            }),
    {
        if self.rtime.nsec == 0 {
            None
        } else {
            Some(self.rtime.nsec)
        }
    }

    /// Returns the creation time.
    pub fn created(&self) -> (r: Timespec)
        ensures
            r == self.otime,
    {
        self.otime
    }

    /// Returns the last change time.
    pub fn changed(&self) -> (r: Timespec)
        ensures
            r == self.ctime,
    {
        self.ctime
    }

    /// Returns the time when this subvolume was received, or `None` if this
    /// subvolume was not received: present exactly when the receive time has
    /// a non-zero component, and taken from the receive-time field.
    pub fn received(&self) -> (r: Option<Timespec>)
        ensures
            r == (if self.rtime.sec == 0 && self.rtime.nsec == 0 {
                Option::<Timespec>::None
            } else {
                Option::<Timespec>::Some(self.rtime)
            }),
    {
        if self.rtime.sec == 0 && self.rtime.nsec == 0 {
            None
        } else {
            Some(self.rtime)
        }
    }
}

impl Default for SubvolumeInfo {
    /// The all-zero record.
    fn default() -> (r: SubvolumeInfo)
        ensures
            r == SubvolumeInfo::spec_zero(),
    {
        SubvolumeInfo::new()
    }
}

/// A builder assembling the arguments of a native subvolume-cursor creation
/// call: the starting path inside the filesystem, the top subvolume ID the
/// traversal is rooted at (zero to derive it from the path), and the
/// traversal order.
pub struct IterateSubvolume {
    pub path: Vec<u8>,
    pub top: u64,
    pub post_order: bool,
}

impl IterateSubvolume {
    /// Starts a builder for the given path in a btrfs filesystem. The path
    /// may be any path in the filesystem; it does not have to name a
    /// subvolume unless no top ID is set. An embedded NUL byte cannot cross
    /// the native boundary, so it is ruled out up front.
    pub fn new(path: Vec<u8>) -> (r: IterateSubvolume)
        requires
            !path@.contains(0),
        ensures
            r.path == path,
            r.top == 0,
            !r.post_order,
    {
        IterateSubvolume { path, top: 0, post_order: false }
    }

    /// Lists subvolumes beneath (but not including) the subvolume with this
    /// ID; yielded paths are relative to it.
    pub fn top(&mut self, id: u64) -> (r: &mut IterateSubvolume)
        ensures
            *r == (IterateSubvolume {
                path: old(self).path,
                top: id,
                post_order: old(self).post_order,
            }),
            *final(self) == *final(r),
    {
        self.top = id;
        self
    }

    /// Lists all subvolumes: sets the top to the filesystem root tree.
    pub fn all(&mut self) -> (r: &mut IterateSubvolume)
        ensures
            *r == (IterateSubvolume {
                path: old(self).path,
                top: FS_TREE_OBJECTID,
                post_order: old(self).post_order,
            }),
            *final(self) == *final(r),
    {
        self.top = FS_TREE_OBJECTID;
        self
    }

    /// Uses post-order traversal: children before their parent.
    pub fn post_order(&mut self) -> (r: &mut IterateSubvolume)
        ensures
            *r == (IterateSubvolume {
                path: old(self).path,
                top: old(self).top,
                post_order: true,
            }),
            *final(self) == *final(r),
    {
        self.post_order = true;
        self
    }

    /// Uses pre-order traversal (the default): a parent before its children.
    pub fn pre_order(&mut self) -> (r: &mut IterateSubvolume)
        ensures
            *r == (IterateSubvolume {
                path: old(self).path,
                top: old(self).top,
                post_order: false,
            }),
            *final(self) == *final(r),
    {
        self.post_order = false;
        self
    }

    /// The flags word of the native cursor-creation call this builder stands
    /// for.
    pub open spec fn spec_flags(&self) -> i32 {
        if self.post_order {
            SUBVOLUME_ITERATOR_POST_ORDER
        } else {
            0
        }
    }

    /// Assembles the flags word to hand to the native cursor-creation call.
    pub fn flags(&self) -> (f: i32)
        ensures
            f == self.spec_flags(),
    {
        if self.post_order {
            SUBVOLUME_ITERATOR_POST_ORDER
        } else {
            0
        }
    }

    /// Concludes a native cursor-creation call made for this builder: on the
    /// OK status the fresh ID cursor view, otherwise the translated error.
    /// Call this immediately after the native call returns.
    pub fn iter_with_id(&self, status: u32) -> (r: Result<SubvolumeIdIterator, Error>)
        ensures
            status == 0 <==> r is Ok,
            r matches Ok(it) ==> !it.cursor.exhausted,
            r matches Err(e) ==> e.kind == ErrorKind::spec_from_code(status),
    {
        if status == 0 {
            Ok(SubvolumeIdIterator { cursor: SubvolumeIterator::new() })
        } else {
            Err(Error::new(status))
        }
    }

    /// Concludes a native cursor-creation call made for this builder: on the
    /// OK status the fresh info cursor view, otherwise the translated error.
    /// Call this immediately after the native call returns.
    pub fn iter_with_info(&self, status: u32) -> (r: Result<SubvolumeInfoIterator, Error>)
        ensures
            status == 0 <==> r is Ok,
            r matches Ok(it) ==> !it.cursor.exhausted,
            r matches Err(e) ==> e.kind == ErrorKind::spec_from_code(status),
    {
        match self.iter_with_id(status) {
            Ok(it) => Ok(SubvolumeInfoIterator::from(it)),
            Err(e) => Err(e),
        }
    }
}

/// The ID view of a subvolume cursor: each entry is a path relative to the
/// traversal top plus the subvolume's ID.
#[derive(Debug)]
pub struct SubvolumeIdIterator {
    pub cursor: SubvolumeIterator,
}

/// The info view of a subvolume cursor: each entry is a path relative to the
/// traversal top plus the subvolume's full info record.
#[derive(Debug)]
pub struct SubvolumeInfoIterator {
    pub cursor: SubvolumeIterator,
}

/// What one step of the ID view concludes from a native outcome: the next
/// cursor state, and either an entry, the end of the sequence, or an error.
pub open spec fn spec_id_step(
    cursor: SubvolumeIterator,
    status: u32,
    path: Vec<u8>,
    id: u64,
    errno: i32,
) -> (SubvolumeIterator, Option<Result<(Vec<u8>, u64), Error>>) {
    if cursor.exhausted {
        (cursor, None)
    } else if status == 1 {
        (SubvolumeIterator { exhausted: true }, None)
    } else if status == 0 {
        (cursor, Some(Ok((path, id))))
    } else {
        (
            cursor,
            Some(Err(Error { kind: ErrorKind::spec_from_code(status), errno: Errno(errno) })),
        )
    }
}

/// What one step of the info view concludes from a native outcome.
pub open spec fn spec_info_step(
    cursor: SubvolumeIterator,
    status: u32,
    path: Vec<u8>,
    info: SubvolumeInfo,
    errno: i32,
) -> (SubvolumeIterator, Option<Result<(Vec<u8>, SubvolumeInfo), Error>>) {
    if cursor.exhausted {
        (cursor, None)
    } else if status == 1 {
        (SubvolumeIterator { exhausted: true }, None)
    } else if status == 0 {
        (cursor, Some(Ok((path, info))))
    } else {
        (
            cursor,
            Some(Err(Error { kind: ErrorKind::spec_from_code(status), errno: Errno(errno) })),
        )
    }
}

impl SubvolumeIdIterator {
    /// Concludes one native next call on this cursor: `None` at the end of
    /// the sequence, otherwise the decoded entry or the translated error.
    ///
    /// `status`, `path`, `id` and `errno` are the raw outputs of the call,
    /// with `errno` captured immediately after it returned. Once the cursor
    /// has observed the end-of-iteration sentinel it is exhausted, and every
    /// later step returns `None` whatever event is handed in. A zero ID under
    /// an OK status breaks the native layer's contract and is ruled out here:
    /// callers must treat it as fatal, not as an error value.
    pub fn step(&mut self, status: u32, path: Vec<u8>, id: u64, errno: i32) -> (r: Option<
        Result<(Vec<u8>, u64), Error>,
    >)
        requires
            !old(self).cursor.exhausted && status == 0 ==> id != 0,
        ensures
            (final(self).cursor, r) == spec_id_step(old(self).cursor, status, path, id, errno),
    {
        if self.cursor.exhausted {
            None
        } else if status == 1 {
            self.cursor.exhausted = true;
            None
        } else if status == 0 {
            Some(Ok((path, id)))
        } else {
            Some(Err(Error { kind: ErrorKind::from_code(status), errno: Errno(errno) }))
        }
    }
}

impl SubvolumeInfoIterator {
    /// Concludes one native next call on this cursor: `None` at the end of
    /// the sequence, otherwise the decoded entry or the translated error.
    ///
    /// `status`, `path`, `info` and `errno` are the raw outputs of the call,
    /// with `errno` captured immediately after it returned. Once the cursor
    /// has observed the end-of-iteration sentinel it is exhausted, and every
    /// later step returns `None` whatever event is handed in.
    pub fn step(&mut self, status: u32, path: Vec<u8>, info: SubvolumeInfo, errno: i32) -> (r:
        Option<Result<(Vec<u8>, SubvolumeInfo), Error>>)
        ensures
            (final(self).cursor, r) == spec_info_step(old(self).cursor, status, path, info, errno),
    {
        if self.cursor.exhausted {
            None
        } else if status == 1 {
            self.cursor.exhausted = true;
            None
        } else if status == 0 {
            Some(Ok((path, info)))
        } else {
            Some(Err(Error { kind: ErrorKind::from_code(status), errno: Errno(errno) }))
        }
    }
}

impl From<SubvolumeIdIterator> for SubvolumeInfoIterator {
    /// Reinterprets the cursor as its info view; the source value is consumed,
    /// so the underlying cursor keeps a single owner.
    fn from(iter: SubvolumeIdIterator) -> (r: SubvolumeInfoIterator) {
        SubvolumeInfoIterator { cursor: iter.cursor }
    }
}

impl vstd::std_specs::convert::FromSpecImpl<SubvolumeIdIterator> for SubvolumeInfoIterator {
    open spec fn obeys_from_spec() -> bool {
        true
    }

    open spec fn from_spec(iter: SubvolumeIdIterator) -> SubvolumeInfoIterator {
        SubvolumeInfoIterator { cursor: iter.cursor }
    }
}

impl From<SubvolumeInfoIterator> for SubvolumeIdIterator {
    /// Reinterprets the cursor as its ID view; the source value is consumed,
    /// so the underlying cursor keeps a single owner.
    fn from(iter: SubvolumeInfoIterator) -> (r: SubvolumeIdIterator) {
        SubvolumeIdIterator { cursor: iter.cursor }
    }
}

impl vstd::std_specs::convert::FromSpecImpl<SubvolumeInfoIterator> for SubvolumeIdIterator {
    open spec fn obeys_from_spec() -> bool {
        true
    }

    open spec fn from_spec(iter: SubvolumeInfoIterator) -> SubvolumeIdIterator {
        SubvolumeIdIterator { cursor: iter.cursor }
    }
}

/// Converting between the ID view and the info view of a cursor preserves the
/// underlying cursor state, in both directions; in particular, converting one
/// way and back restores the starting value.
pub proof fn lemma_view_conversion_preserves_cursor(
    a: SubvolumeIdIterator,
    b: SubvolumeInfoIterator,
)
    ensures
        <SubvolumeInfoIterator as vstd::std_specs::convert::FromSpec<
            SubvolumeIdIterator,
        >>::from_spec(a).cursor == a.cursor,
        <SubvolumeIdIterator as vstd::std_specs::convert::FromSpec<
            SubvolumeInfoIterator,
        >>::from_spec(b).cursor == b.cursor,
        <SubvolumeIdIterator as vstd::std_specs::convert::FromSpec<SubvolumeInfoIterator>>::from_spec(
            <SubvolumeInfoIterator as vstd::std_specs::convert::FromSpec<
                SubvolumeIdIterator,
            >>::from_spec(a),
        ) == a,
{
}

/// An exhausted cursor is final: whatever event is handed in, either view's
/// step signals end-of-sequence again and leaves the cursor exhausted, and no
/// prior error can come back.
pub proof fn lemma_exhausted_step_is_end(
    cursor: SubvolumeIterator,
    status: u32,
    path: Vec<u8>,
    id: u64,
    info: SubvolumeInfo,
    errno: i32,
)
    requires
        cursor.exhausted,
    ensures
        spec_id_step(cursor, status, path, id, errno) == (
            cursor,
            Option::<Result<(Vec<u8>, u64), Error>>::None,
        ),
        spec_info_step(cursor, status, path, info, errno) == (
            cursor,
            Option::<Result<(Vec<u8>, SubvolumeInfo), Error>>::None,
        ),
{
}

/// The two views of one cursor agree: fed the same cursor state and the same
/// native outcome, they move the cursor identically, end together, fail with
/// the same error, and yield entries with the same path whose ID equals the
/// info record's ID.
pub proof fn lemma_id_info_steps_agree(
    cursor: SubvolumeIterator,
    status: u32,
    path: Vec<u8>,
    id: u64,
    info: SubvolumeInfo,
    errno: i32,
)
    requires
        info.id == id,
    ensures
        ({
            let (id_cursor, id_out) = spec_id_step(cursor, status, path, id, errno);
            let (info_cursor, info_out) = spec_info_step(cursor, status, path, info, errno);
            &&& id_cursor == info_cursor
            &&& (id_out is None <==> info_out is None)
            &&& (id_out matches Some(Ok(entry)) ==> info_out matches Some(Ok(ientry))
                && ientry.0 == entry.0 && ientry.1.id == entry.1)
            &&& (id_out matches Some(Err(e)) ==> info_out == Some(
                Err::<(Vec<u8>, SubvolumeInfo), Error>(e),
            ))
        }),
{
}

/// Concludes a native subvolume-path lookup: on the OK status the path bytes
/// the call produced, relative to the filesystem root, otherwise the
/// translated error. Call this immediately after the native call returns.
pub fn subvolume_path(status: u32, path: Vec<u8>) -> (r: Result<Vec<u8>, Error>)
    ensures
        status == 0 <==> r is Ok,
        r matches Ok(p) ==> p == path,
        r matches Err(e) ==> e.kind == ErrorKind::spec_from_code(status),
{
    if status == 0 {
        Ok(path)
    } else {
        Err(Error::new(status))
    }
}

} // verus!
