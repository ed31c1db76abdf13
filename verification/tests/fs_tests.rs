use daxo_os::fs::{DirectoryEntry, SimpleFS, SECTOR_SIZE};

#[test]
fn new_entry_keeps_short_name() {
    let e = DirectoryEntry::new("kernel.txt", 10, 1024);
    assert_eq!(&e.name[..10], b"kernel.txt");
    assert!(e.name[10..].iter().all(|&b| b == 0));
    assert_eq!(e.start_block, 10);
    assert_eq!(e.size, 1024);
    assert_eq!(e.flags, 0x01);
    assert_eq!(e.name_as_str(), "kernel.txt");
}

#[test]
fn new_entry_truncates_to_23_bytes() {
    let long = "abcdefghijklmnopqrstuvwxyz";
    let e = DirectoryEntry::new(long, 1, 2);
    assert_eq!(&e.name[..23], &long.as_bytes()[..23]);
    assert_eq!(e.name[23], 0);
    assert_eq!(e.name_as_str(), "abcdefghijklmnopqrstuvw");
}

#[test]
fn empty_name_reads_back_empty() {
    let e = DirectoryEntry::new("", 0, 0);
    assert_eq!(e.name, [0u8; 24]);
    assert_eq!(e.name_as_str(), "");
}

#[test]
fn name_cut_inside_a_character_is_invalid() {
    // 22 ASCII bytes then a two-byte character: the cut at 23 bytes splits it.
    let name = "aaaaaaaaaaaaaaaaaaaaaaé";
    assert_eq!(name.len(), 24);
    let e = DirectoryEntry::new(name, 0, 0);
    assert_eq!(e.name_as_str(), "INVALID");
}

#[test]
fn multibyte_name_round_trips() {
    let e = DirectoryEntry::new("файл", 3, 4);
    assert_eq!(e.name_as_str(), "файл");
}

#[test]
fn name_stops_at_first_nul() {
    let mut e = DirectoryEntry::new("boot.bin", 0, 0);
    e.name[4] = 0;
    assert_eq!(e.name_as_str(), "boot");
}

#[test]
fn non_utf8_name_is_invalid() {
    let mut e = DirectoryEntry::new("x", 0, 0);
    e.name[0] = 0xFF;
    assert_eq!(e.name_as_str(), "INVALID");
}

#[test]
fn full_field_without_nul_is_read_whole() {
    let mut e = DirectoryEntry::new("", 0, 0);
    e.name = [b'z'; 24];
    assert_eq!(e.name_as_str(), "zzzzzzzzzzzzzzzzzzzzzzzz");
}

#[test]
fn read_known_file() {
    let data = SimpleFS::read_file("kernel.txt").expect("kernel.txt exists");
    assert_eq!(data, b"Hello from file kernel.txt stored on ATA drive!".to_vec());
}

#[test]
fn read_unknown_file() {
    assert!(SimpleFS::read_file("kernel.tx").is_none());
    assert!(SimpleFS::read_file("kernel.txt ").is_none());
    assert!(SimpleFS::read_file("").is_none());
}

#[test]
fn sector_size_is_512() {
    assert_eq!(SECTOR_SIZE, 512);
}
