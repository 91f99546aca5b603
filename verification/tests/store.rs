use opfs_store::store::{OPFSFile, OpfsCore};

#[test]
fn resolve_missing_file_yields_empty_file() {
    let mut core = OpfsCore::new();
    let f = OPFSFile::from_filename(&mut core, "fresh.bin");
    assert_eq!(f.get_size(), 0);
    assert_eq!(f.read(&core, 0, 16), Vec::<u8>::new());
}

#[test]
fn write_then_read_roundtrip() {
    let mut core = OpfsCore::new();
    let f = OPFSFile::from_filename(&mut core, "data.bin");
    f.write(&mut core, &[5, 6, 7], 3);
    assert_eq!(f.read(&core, 3, 3), vec![5, 6, 7]);
}

#[test]
fn gap_before_offset_is_zero_filled() {
    let mut core = OpfsCore::new();
    let f = OPFSFile::from_filename(&mut core, "gap.bin");
    f.write(&mut core, &[7], 3);
    assert_eq!(f.read(&core, 0, 4), vec![0, 0, 0, 7]);
}

#[test]
fn partial_overwrite_does_not_shrink() {
    let mut core = OpfsCore::new();
    let f = OPFSFile::from_filename(&mut core, "keep.bin");
    f.write(&mut core, &[1, 2, 3, 4, 5], 0);
    let before = OPFSFile::from_filename(&mut core, "keep.bin");
    assert_eq!(before.get_size(), 5);
    before.write(&mut core, &[9, 8], 0);
    let after = OPFSFile::from_filename(&mut core, "keep.bin");
    assert_eq!(after.get_size(), 5);
    assert_eq!(after.read(&core, 0, 5), vec![9, 8, 3, 4, 5]);
    assert_eq!(after.read(&core, 2, 3), vec![3, 4, 5]);
}

#[test]
fn read_past_end_is_clamped_never_fails() {
    let mut core = OpfsCore::new();
    let f = OPFSFile::from_filename(&mut core, "short.bin");
    f.write(&mut core, &[10, 20, 30, 40], 0);
    assert_eq!(f.read(&core, 2, 100), vec![30, 40]);
    assert_eq!(f.read(&core, 4, 1), Vec::<u8>::new());
    assert_eq!(f.read(&core, 50, 10), Vec::<u8>::new());
}

#[test]
fn disjoint_writes_are_both_observable() {
    let mut core = OpfsCore::new();
    let f = OPFSFile::from_filename(&mut core, "two.bin");
    f.write(&mut core, &[1, 2, 3], 0);
    f.write(&mut core, &[7, 8], 5);
    assert_eq!(f.read(&core, 0, 3), vec![1, 2, 3]);
    assert_eq!(f.read(&core, 5, 2), vec![7, 8]);
}

#[test]
fn snapshot_size_is_stale_until_re_resolved() {
    let mut core = OpfsCore::new();
    let f = OPFSFile::from_filename(&mut core, "stale.bin");
    f.write(&mut core, &[1, 2, 3], 0);
    assert_eq!(f.get_size(), 0);
    let fresh = OPFSFile::from_filename(&mut core, "stale.bin");
    assert_eq!(fresh.get_size(), 3);
}

#[test]
fn resolving_twice_hits_the_same_file() {
    let mut core = OpfsCore::new();
    let a = OPFSFile::from_filename(&mut core, "shared.bin");
    a.write(&mut core, &[42], 0);
    let b = OPFSFile::from_filename(&mut core, "shared.bin");
    assert_eq!(b.get_size(), 1);
    assert_eq!(b.read(&core, 0, 1), vec![42]);
}

#[test]
fn files_are_independent() {
    let mut core = OpfsCore::new();
    let a = OPFSFile::from_filename(&mut core, "a.bin");
    let b = OPFSFile::from_filename(&mut core, "b.bin");
    a.write(&mut core, &[1, 1], 0);
    b.write(&mut core, &[2, 2, 2], 0);
    assert_eq!(a.read(&core, 0, 2), vec![1, 1]);
    assert_eq!(b.read(&core, 0, 3), vec![2, 2, 2]);
    let a_again = OPFSFile::from_filename(&mut core, "a.bin");
    assert_eq!(a_again.get_size(), 2);
}

#[test]
fn scenario_log_bin() {
    let mut core = OpfsCore::new();
    let f = OPFSFile::from_filename(&mut core, "log.bin");
    assert_eq!(f.get_size(), 0);
    f.write(&mut core, &[0x01, 0x02, 0x03, 0x04], 0);
    let f = OPFSFile::from_filename(&mut core, "log.bin");
    assert_eq!(f.get_size(), 4);
    assert_eq!(f.read(&core, 0, 4), vec![0x01, 0x02, 0x03, 0x04]);
    f.write(&mut core, &[0xFF], 2);
    assert_eq!(f.read(&core, 0, 4), vec![0x01, 0x02, 0xFF, 0x04]);
}
