use pipemux::vfs::{
    InodeTable, VfsDirEntry, VfsNodeAttr, VfsNodePerm, VfsNodeType, DIR_ENTRY_NAME_LEN,
};

#[test]
fn default_file_permission_is_rw_for_everyone() {
    let perm = VfsNodePerm::default_file();
    assert_eq!(perm.bits(), 0o666);
    assert_eq!(perm.mode(), 0o666);
    assert_eq!(&perm.rwx_buf(), b"rw-rw-rw-");
    assert!(perm.owner_readable());
    assert!(perm.owner_writable());
    assert!(!perm.owner_executable());
}

#[test]
fn default_dir_permission_is_rwx_r_x_r_x() {
    let perm = VfsNodePerm::default_dir();
    assert_eq!(perm.bits(), 0o755);
    assert_eq!(&perm.rwx_buf(), b"rwxr-xr-x");
    assert!(perm.owner_executable());
}

#[test]
fn from_bits_truncate_drops_undefined_bits() {
    let perm = VfsNodePerm::from_bits_truncate(0o7741);
    assert_eq!(perm.bits(), 0o741);
    assert_eq!(&perm.rwx_buf(), b"rwxr----x");
}

#[test]
fn node_types_answer_their_predicates() {
    assert!(VfsNodeType::File.is_file());
    assert!(!VfsNodeType::File.is_dir());
    assert!(VfsNodeType::Dir.is_dir());
    assert!(VfsNodeType::SymLink.is_symlink());
    assert!(VfsNodeType::BlockDevice.is_block_device());
    assert!(VfsNodeType::CharDevice.is_char_device());
    assert!(VfsNodeType::Fifo.is_fifo());
    assert!(VfsNodeType::Socket.is_socket());
}

#[test]
fn node_types_have_their_listing_characters() {
    assert_eq!(VfsNodeType::Fifo.as_char(), 'p');
    assert_eq!(VfsNodeType::CharDevice.as_char(), 'c');
    assert_eq!(VfsNodeType::Dir.as_char(), 'd');
    assert_eq!(VfsNodeType::BlockDevice.as_char(), 'b');
    assert_eq!(VfsNodeType::File.as_char(), '-');
    assert_eq!(VfsNodeType::SymLink.as_char(), 'l');
    assert_eq!(VfsNodeType::Socket.as_char(), 's');
}

#[test]
fn fresh_table_allocates_from_four() {
    let mut table = InodeTable::new();
    assert_eq!(table.iunique(None), 4);
    assert_eq!(table.iunique(None), 5);
    assert_eq!(table.iunique(None), 6);
}

#[test]
fn requested_inode_is_honoured_when_free() {
    let mut table = InodeTable::new();
    assert_eq!(table.iunique(Some(100)), 100);
    // A requested number already in use yields the next free one above it.
    assert_eq!(table.iunique(Some(100)), 101);
    assert_eq!(table.iunique(Some(1)), 4);
    // Unrequested allocation is not disturbed by requested ones below it.
    assert_eq!(table.iunique(None), 5);
}

#[test]
fn unrequested_allocation_skips_numbers_taken_by_request() {
    let mut table = InodeTable::new();
    assert_eq!(table.iunique(Some(4)), 4);
    assert_eq!(table.iunique(Some(5)), 5);
    assert_eq!(table.iunique(None), 6);
}

#[test]
fn attr_carries_its_fields() {
    let mut table = InodeTable::new();
    let perm = VfsNodePerm::from_bits_truncate(0o640);
    let mut attr = VfsNodeAttr::new(&mut table, perm, VfsNodeType::File, 4096, 8, Some(77));
    assert_eq!(attr.size(), 4096);
    assert_eq!(attr.blocks(), 8);
    assert_eq!(attr.perm().bits(), 0o640);
    assert_eq!(attr.file_type(), VfsNodeType::File);
    assert!(attr.is_file());
    assert!(!attr.is_dir());
    assert_eq!(attr.ino(), 77);
    attr.set_perm(VfsNodePerm::from_bits_truncate(0o600));
    assert_eq!(attr.perm().bits(), 0o600);
    assert_eq!(attr.size(), 4096);
}

#[test]
fn new_file_and_new_dir_use_default_permissions() {
    let mut table = InodeTable::new();
    let file = VfsNodeAttr::new_file(&mut table, 10, 1, None);
    assert_eq!(file.perm().bits(), 0o666);
    assert!(file.is_file());
    assert_eq!(file.ino(), 4);
    let dir = VfsNodeAttr::new_dir(&mut table, 0, 0, None);
    assert_eq!(dir.perm().bits(), 0o755);
    assert!(dir.is_dir());
    assert_eq!(dir.ino(), 5);
}

#[test]
fn attrs_get_distinct_inode_numbers() {
    let mut table = InodeTable::new();
    let a = VfsNodeAttr::new_file(&mut table, 0, 0, Some(9));
    let b = VfsNodeAttr::new_file(&mut table, 0, 0, Some(9));
    let c = VfsNodeAttr::new_file(&mut table, 0, 0, None);
    assert_eq!(a.ino(), 9);
    assert_eq!(b.ino(), 10);
    assert_eq!(c.ino(), 4);
}

#[test]
fn dir_entry_round_trips_its_name() {
    let entry = VfsDirEntry::new("logs.txt", VfsNodeType::File);
    assert_eq!(entry.name_as_bytes(), b"logs.txt");
    assert_eq!(entry.entry_type(), VfsNodeType::File);
}

#[test]
fn dir_entry_accepts_a_name_of_the_full_field_length() {
    let name: String = "x".repeat(DIR_ENTRY_NAME_LEN);
    let entry = VfsDirEntry::new(&name, VfsNodeType::Dir);
    assert_eq!(entry.name_as_bytes(), name.as_bytes());
    assert_eq!(entry.entry_type(), VfsNodeType::Dir);
}

#[test]
fn default_dir_entry_is_an_unnamed_file() {
    let entry = VfsDirEntry::default();
    assert_eq!(entry.name_as_bytes(), b"");
    assert_eq!(entry.entry_type(), VfsNodeType::File);
}
