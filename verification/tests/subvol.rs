use libbtrfsutil::CreateSnapshotOptions;
use libbtrfsutil::CreateSubvolumeOptions;
use libbtrfsutil::DeleteSubvolumeOptions;
use libbtrfsutil::ErrorKind;
use libbtrfsutil::IterateSubvolume;
use libbtrfsutil::QgroupInherit;
use libbtrfsutil::SubvolumeIdIterator;
use libbtrfsutil::SubvolumeInfo;
use libbtrfsutil::SubvolumeInfoIterator;
use libbtrfsutil::Timespec;
use libbtrfsutil::FS_TREE_OBJECTID;

fn info_with(id: u64, parent_id: u64, dir_id: u64) -> SubvolumeInfo {
    let mut info = SubvolumeInfo::new();
    info.id = id;
    info.parent_id = parent_id;
    info.dir_id = dir_id;
    info
}

/// The field values the native layer reports for the root subvolume of a
/// freshly formatted filesystem.
fn fresh_root_info() -> SubvolumeInfo {
    let mut info = info_with(5, 0, 0);
    info.uuid = [1, 2, 3, 4, 5, 6, 7, 8, 9, 10, 11, 12, 13, 14, 15, 16];
    info.generation = 7;
    info.ctransid = 7;
    info.otransid = 0;
    info.ctime = Timespec { sec: 1700000000, nsec: 5 };
    info.otime = Timespec { sec: 1700000000, nsec: 5 };
    info
}

#[test]
fn test_fresh_root_info_fields() {
    let root_info = fresh_root_info();
    assert_eq!(root_info.id(), 5);
    assert_eq!(root_info.parent_id(), None);
    assert_eq!(root_info.dir_id(), None);
    assert_eq!(root_info.flags(), 0);
    assert!(!root_info.uuid().is_nil());
    assert_eq!(root_info.parent_uuid(), None);
    assert_eq!(root_info.received_uuid(), None);
    assert_ne!(root_info.generation(), 0);
    assert_ne!(root_info.ctransid(), 0);
    assert_eq!(root_info.otransid(), 0);
    assert_eq!(root_info.stransid(), None);
    assert_eq!(root_info.rtransid(), None);
    assert_ne!(root_info.ctime(), 0);
    assert_ne!(root_info.otime(), 0);
    assert_eq!(root_info.stime(), None);
    assert_eq!(root_info.stime_nsec(), None);
    assert_eq!(root_info.rtime(), None);
    assert_eq!(root_info.rtime_nsec(), None);
    assert_eq!(root_info.created(), Timespec { sec: root_info.otime(), nsec: root_info.otime_nsec() });
    assert_eq!(root_info.changed(), Timespec { sec: root_info.ctime(), nsec: root_info.ctime_nsec() });
    assert_eq!(root_info.received(), None);
}

#[test]
fn test_first_subvolume_info_fields() {
    let root_info = fresh_root_info();
    let mut subvol_info = info_with(256, 5, 256);
    subvol_info.uuid = [9, 9, 9, 9, 9, 9, 9, 9, 9, 9, 9, 9, 9, 9, 9, 9];
    subvol_info.generation = 9;
    subvol_info.ctransid = 9;
    subvol_info.otransid = 9;
    subvol_info.ctime = Timespec { sec: 1700000100, nsec: 0 };
    subvol_info.otime = Timespec { sec: 1700000100, nsec: 0 };
    assert_eq!(subvol_info.id(), 256);
    assert_eq!(subvol_info.parent_id(), Some(5));
    assert_eq!(subvol_info.dir_id(), Some(256));
    assert_eq!(subvol_info.flags(), 0);
    assert!(!subvol_info.uuid().is_nil());
    assert_eq!(subvol_info.parent_uuid(), None);
    assert_eq!(subvol_info.received_uuid(), None);
    assert!(subvol_info.otransid() > root_info.otransid());
    assert_eq!(subvol_info.stransid(), None);
    assert_eq!(subvol_info.rtransid(), None);
    assert_eq!(subvol_info.received(), None);
}

#[test]
fn test_snapshot_info_fields() {
    let mut subvol_info = info_with(256, 5, 256);
    subvol_info.uuid = [9, 9, 9, 9, 9, 9, 9, 9, 9, 9, 9, 9, 9, 9, 9, 9];
    let mut snapshot_info = info_with(257, 5, 256);
    snapshot_info.uuid = [8, 8, 8, 8, 8, 8, 8, 8, 8, 8, 8, 8, 8, 8, 8, 8];
    snapshot_info.parent_uuid = [9, 9, 9, 9, 9, 9, 9, 9, 9, 9, 9, 9, 9, 9, 9, 9];
    assert_eq!(snapshot_info.parent_id(), Some(5));
    assert_eq!(snapshot_info.dir_id(), Some(256));
    assert_eq!(snapshot_info.parent_uuid(), Some(subvol_info.uuid()));
}

#[test]
fn test_uuid_accessor_round_trips_bytes() {
    let mut info = SubvolumeInfo::new();
    info.uuid = [0xa1, 0xa2, 0xa3, 0xa4, 0xb1, 0xb2, 0xc1, 0xc2, 0xd1, 0xd2, 0xd3, 0xd4, 0xd5, 0xd6, 0xd7, 0xd8];
    assert_eq!(info.uuid().as_bytes(), &info.uuid);
}

#[test]
fn test_received_uses_receive_time() {
    let mut info = SubvolumeInfo::new();
    info.ctime = Timespec { sec: 111, nsec: 222 };
    info.rtime = Timespec { sec: 333, nsec: 444 };
    assert_eq!(info.received(), Some(Timespec { sec: 333, nsec: 444 }));
    assert_eq!(info.rtime(), Some(333));
    assert_eq!(info.rtime_nsec(), Some(444));

    let mut not_received = SubvolumeInfo::new();
    not_received.ctime = Timespec { sec: 111, nsec: 222 };
    assert_eq!(not_received.received(), None);

    let mut nsec_only = SubvolumeInfo::new();
    nsec_only.rtime = Timespec { sec: 0, nsec: 1 };
    assert_eq!(nsec_only.received(), Some(Timespec { sec: 0, nsec: 1 }));
}

#[test]
fn test_default_is_zeroed() {
    let info = SubvolumeInfo::default();
    assert_eq!(info.id(), 0);
    assert_eq!(info.parent_id(), None);
    assert_eq!(info.uuid().is_nil(), true);
    assert_eq!(info.received(), None);
}

#[test]
fn test_iterate_builder() {
    let mut builder = IterateSubvolume::new(b"/mnt".to_vec());
    assert_eq!(builder.top, 0);
    assert!(!builder.post_order);
    assert_eq!(builder.flags(), 0);
    builder.top(256);
    assert_eq!(builder.top, 256);
    builder.all();
    assert_eq!(builder.top, FS_TREE_OBJECTID);
    builder.post_order();
    assert_eq!(builder.flags(), 1);
    builder.pre_order();
    assert_eq!(builder.flags(), 0);
}

#[test]
fn test_iter_with_id_translates_status() {
    let builder = IterateSubvolume::new(b"/mnt".to_vec());
    assert!(builder.iter_with_id(0).is_ok());
    let err = builder.iter_with_id(4).unwrap_err();
    assert_eq!(err.kind(), ErrorKind::NotBtrfs);
    assert!(builder.iter_with_info(0).is_ok());
    let err = builder.iter_with_info(6).unwrap_err();
    assert_eq!(err.kind(), ErrorKind::SubvolumeNotFound);
}

#[test]
fn test_id_iterator_steps() {
    let builder = IterateSubvolume::new(b"/mnt".to_vec());
    let mut iter = builder.iter_with_id(0).unwrap();
    let entry = iter.step(0, b"subvol".to_vec(), 256, 0);
    assert_eq!(entry, Some(Ok((b"subvol".to_vec(), 256))));
    let entry = iter.step(0, b"subvol/nested".to_vec(), 257, 0);
    assert_eq!(entry, Some(Ok((b"subvol/nested".to_vec(), 257))));
    let end = iter.step(1, Vec::new(), 0, 0);
    assert_eq!(end, None);
}

#[test]
fn test_id_iterator_reports_error() {
    let builder = IterateSubvolume::new(b"/mnt".to_vec());
    let mut iter = builder.iter_with_id(0).unwrap();
    let step = iter.step(12, Vec::new(), 0, 13);
    match step {
        Some(Err(e)) => {
            assert_eq!(e.kind(), ErrorKind::SearchFailed);
            assert_eq!(e.errno(), 13);
        },
        other => panic!("expected an error step, got {:?}", other.is_none()),
    }
}

#[test]
fn test_exhausted_id_iterator_stays_done() {
    let builder = IterateSubvolume::new(b"/mnt".to_vec());
    let mut iter = builder.iter_with_id(0).unwrap();
    assert_eq!(iter.step(1, Vec::new(), 0, 0), None);
    assert_eq!(iter.step(1, Vec::new(), 0, 0), None);
    assert_eq!(iter.step(12, Vec::new(), 0, 13), None);
    assert_eq!(iter.step(0, b"late".to_vec(), 300, 0), None);
}

#[test]
fn test_exhausted_info_iterator_stays_done() {
    let builder = IterateSubvolume::new(b"/mnt".to_vec());
    let mut iter = builder.iter_with_info(0).unwrap();
    assert!(iter.step(1, Vec::new(), SubvolumeInfo::new(), 0).is_none());
    assert!(iter.step(12, Vec::new(), SubvolumeInfo::new(), 13).is_none());
    assert!(iter.step(0, b"late".to_vec(), info_with(300, 5, 256), 0).is_none());
}

#[test]
fn test_info_iterator_steps() {
    let builder = IterateSubvolume::new(b"/mnt".to_vec());
    let mut iter = builder.iter_with_info(0).unwrap();
    let info = info_with(256, 5, 256);
    let entry = iter.step(0, b"subvol".to_vec(), info, 0);
    match entry {
        Some(Ok((path, got))) => {
            assert_eq!(path, b"subvol".to_vec());
            assert_eq!(got.id(), 256);
        },
        _ => panic!("expected an entry"),
    }
    assert!(iter.step(1, Vec::new(), SubvolumeInfo::new(), 0).is_none());
}

#[test]
fn test_view_conversion_matches_id_and_info() {
    let builder = IterateSubvolume::new(b"/mnt".to_vec());

    // Drive the ID view one entry in, then hand the cursor over to the info
    // view; the info view continues from the same state.
    let mut id_iter = builder.iter_with_id(0).unwrap();
    let first = id_iter.step(0, b"subvol".to_vec(), 256, 0);
    assert_eq!(first, Some(Ok((b"subvol".to_vec(), 256))));
    let mut info_iter = SubvolumeInfoIterator::from(id_iter);
    let second = info_iter.step(0, b"subvol/nested".to_vec(), info_with(257, 256, 258), 0);
    match second {
        Some(Ok((path, got))) => {
            assert_eq!(path, b"subvol/nested".to_vec());
            assert_eq!(got.id(), 257);
        },
        _ => panic!("expected an entry"),
    }
    assert!(info_iter.step(1, Vec::new(), SubvolumeInfo::new(), 0).is_none());

    // Converting back keeps the exhausted state: the ID view signals the end
    // too, whatever event comes in.
    let mut id_again = SubvolumeIdIterator::from(info_iter);
    assert_eq!(id_again.step(0, b"late".to_vec(), 300, 0), None);
}

#[test]
fn test_subvolume_path() {
    assert_eq!(libbtrfsutil::subvolume_path(0, b"a/b".to_vec()), Ok(b"a/b".to_vec()));
    let err = libbtrfsutil::subvolume_path(13, Vec::new()).unwrap_err();
    assert_eq!(err.kind(), ErrorKind::InoLookupFailed);
}

#[test]
fn test_operation_translators() {
    assert_eq!(libbtrfsutil::sync(0), Ok(()));
    assert_eq!(libbtrfsutil::sync(20).unwrap_err().kind(), ErrorKind::SyncFailed);
    assert_eq!(libbtrfsutil::sync(21).unwrap_err().kind(), ErrorKind::StartSyncFailed);
    assert_eq!(libbtrfsutil::sync(22).unwrap_err().kind(), ErrorKind::WaitSyncFailed);

    assert_eq!(libbtrfsutil::is_subvolume(0), Ok(true));
    assert_eq!(libbtrfsutil::is_subvolume(4), Ok(false));
    assert_eq!(libbtrfsutil::is_subvolume(5), Ok(false));
    assert_eq!(libbtrfsutil::is_subvolume(10).unwrap_err().kind(), ErrorKind::StatFailed);

    assert_eq!(libbtrfsutil::subvolume_id(0, 256), Ok(256));
    assert_eq!(libbtrfsutil::subvolume_id(13, 0).unwrap_err().kind(), ErrorKind::InoLookupFailed);

    let info = info_with(5, 0, 0);
    assert_eq!(libbtrfsutil::subvolume_info(0, info).unwrap().id(), 5);
    assert_eq!(libbtrfsutil::subvolume_info(23, info).unwrap_err().kind(), ErrorKind::GetSubvolInfoFailed);

    assert_eq!(libbtrfsutil::subvolume_read_only(0, true), Ok(true));
    assert_eq!(libbtrfsutil::subvolume_read_only(0, false), Ok(false));
    assert_eq!(libbtrfsutil::subvolume_read_only(14, false).unwrap_err().kind(), ErrorKind::SubvolGetflagsFailed);

    assert_eq!(libbtrfsutil::set_subvolume_read_only(0), Ok(()));
    assert_eq!(libbtrfsutil::set_subvolume_read_only(15).unwrap_err().kind(), ErrorKind::SubvolSetflagsFailed);

    assert_eq!(libbtrfsutil::delete_subvolume(0), Ok(()));
    assert_eq!(libbtrfsutil::delete_subvolume(18).unwrap_err().kind(), ErrorKind::SnapDestroyFailed);

    assert_eq!(libbtrfsutil::create_subvolume(0), Ok(()));
    assert_eq!(libbtrfsutil::create_subvolume(16).unwrap_err().kind(), ErrorKind::SubvolCreateFailed);
}

#[test]
fn test_more_error_kinds() {
    assert_eq!(libbtrfsutil::sync(2).unwrap_err().kind(), ErrorKind::NoMemory);
    assert_eq!(libbtrfsutil::sync(3).unwrap_err().kind(), ErrorKind::InvalidArgument);
    assert_eq!(libbtrfsutil::sync(8).unwrap_err().kind(), ErrorKind::RmdirFailed);
    assert_eq!(libbtrfsutil::sync(9).unwrap_err().kind(), ErrorKind::UnlinkFailed);
    assert_eq!(libbtrfsutil::sync(11).unwrap_err().kind(), ErrorKind::StatfsFailed);
    assert_eq!(libbtrfsutil::sync(17).unwrap_err().kind(), ErrorKind::SnapCreateFailed);
    assert_eq!(libbtrfsutil::sync(19).unwrap_err().kind(), ErrorKind::DefaultSubvolFailed);
    assert_eq!(libbtrfsutil::sync(24).unwrap_err().kind(), ErrorKind::GetSubvolRootrefFailed);
    assert_eq!(libbtrfsutil::sync(25).unwrap_err().kind(), ErrorKind::InoLookupUserFailed);
    assert_eq!(libbtrfsutil::sync(26).unwrap_err().kind(), ErrorKind::FsInfoFailed);
    assert_eq!(libbtrfsutil::sync(99).unwrap_err().kind(), ErrorKind::Unknown(99));
}

#[test]
fn test_delete_options() {
    let mut options = DeleteSubvolumeOptions::new();
    assert!(!options.recursive);
    assert_eq!(options.flags(), 0);
    options.recursive(true);
    assert!(options.recursive);
    assert_eq!(options.flags(), 1);
    assert_eq!(options.delete(0), Ok(()));
    assert_eq!(options.delete(18).unwrap_err().kind(), ErrorKind::SnapDestroyFailed);
}

#[test]
fn test_create_options() {
    let mut options = CreateSubvolumeOptions::new();
    assert!(options.qgroup.is_none());
    let mut inherit = QgroupInherit::new().unwrap();
    inherit.add_group(1).unwrap();
    options.qgroup(Some(inherit));
    assert!(options.qgroup.is_some());
    assert_eq!(options.create(0), Ok(()));
    assert_eq!(options.create(16).unwrap_err().kind(), ErrorKind::SubvolCreateFailed);
}

#[test]
fn test_snapshot_options() {
    let mut options = CreateSnapshotOptions::new();
    assert!(options.qgroup.is_none());
    assert!(!options.readonly);
    assert!(!options.recursive);
    assert_eq!(options.flags(), 0);
    options.readonly(true);
    assert_eq!(options.flags(), 1);
    options.recursive(true);
    assert_eq!(options.flags(), 3);
    options.readonly(false);
    assert_eq!(options.flags(), 2);
    assert_eq!(options.create(0), Ok(()));
    assert_eq!(options.create(17).unwrap_err().kind(), ErrorKind::SnapCreateFailed);
}

#[test]
fn test_contains_nul() {
    assert!(!libbtrfsutil::contains_nul(b"/mnt/subvol"));
    assert!(libbtrfsutil::contains_nul(b"/mnt\0subvol"));
    assert!(libbtrfsutil::contains_nul(b"\0"));
    assert!(!libbtrfsutil::contains_nul(b""));
}

#[test]
fn test_error_step_then_end() {
    // An error step does not exhaust the cursor: the end comes only from the
    // sentinel.
    let builder = IterateSubvolume::new(b"/mnt".to_vec());
    let mut iter = builder.iter_with_id(0).unwrap();
    assert!(matches!(iter.step(12, Vec::new(), 0, 5), Some(Err(_))));
    let entry = iter.step(0, b"next".to_vec(), 260, 0);
    assert_eq!(entry, Some(Ok((b"next".to_vec(), 260))));
    assert_eq!(iter.step(1, Vec::new(), 0, 0), None);
}
