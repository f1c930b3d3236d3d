//! End-to-end test: mount a well-formed single-partition FAT32 image
//! and list the root directory.

use fat32_storage::error::StorageError;
use fat32_storage::fat32::Fat32;
use fat32_storage::mbr::MBR;
use fat32_storage::sd::SD;

fn put16(img: &mut [u8], off: usize, val: u16) {
    img[off..off + 2].copy_from_slice(&val.to_le_bytes());
}

fn put32(img: &mut [u8], off: usize, val: u32) {
    img[off..off + 4].copy_from_slice(&val.to_le_bytes());
}

fn dirent_record(name: &[u8; 11], attr: u8, hi: u16, lo: u16, size: u32) -> Vec<u8> {
    let mut r = vec![0u8; 32];
    r[0..11].copy_from_slice(name);
    r[11] = attr;
    r[20..22].copy_from_slice(&hi.to_le_bytes());
    r[26..28].copy_from_slice(&lo.to_le_bytes());
    r[28..32].copy_from_slice(&size.to_le_bytes());
    r
}

/// A well-formed image: an MBR whose first slot is a FAT32 partition
/// at sector 2; a boot sector with 3 reserved sectors, 2 table copies
/// of 1 sector, 2 sectors per cluster; the FSInfo sector; one table
/// copy; and a root directory of one cluster holding a file, a
/// subdirectory, a long-filename record and a deleted record.
fn build_image() -> Vec<u8> {
    let part_start: usize = 2;
    let mut img = vec![0u8; 16 * 512];

    // Master boot record.
    img[446] = 0x80;
    img[446 + 4] = 0x0C;
    put32(&mut img, 446 + 8, part_start as u32);
    put32(&mut img, 446 + 12, 14);
    img[510] = 0x55;
    img[511] = 0xAA;

    // Boot sector at the partition start.
    let bs = part_start * 512;
    put16(&mut img, bs + 11, 512);
    img[bs + 13] = 2; // sectors per cluster
    put16(&mut img, bs + 14, 3); // reserved sectors
    img[bs + 16] = 2; // table copies
    put32(&mut img, bs + 32, 14); // sectors in the volume
    put32(&mut img, bs + 36, 1); // sectors per table copy
    put32(&mut img, bs + 44, 2); // root directory cluster
    put16(&mut img, bs + 48, 1); // FSInfo sector
    put16(&mut img, bs + 50, 6); // backup boot sector
    img[bs + 66] = 0x29;
    img[bs + 510] = 0x55;
    img[bs + 511] = 0xAA;

    // FSInfo sector.
    let fsi = (part_start + 1) * 512;
    put32(&mut img, fsi, 0x41615252);
    put32(&mut img, fsi + 484, 0x61417272);
    put32(&mut img, fsi + 488, 7);
    put32(&mut img, fsi + 492, 5);
    put32(&mut img, fsi + 508, 0xAA550000);

    // One table copy at sector 5: root at cluster 2, a file at
    // cluster 3, each a single-cluster chain.
    let fat = (part_start + 3) * 512;
    put32(&mut img, fat + 2 * 4, 0x0FFF_FFF8);
    put32(&mut img, fat + 3 * 4, 0x0FFF_FFF8);

    // Root directory: cluster 2 is sectors 7 and 8.
    let root = 7 * 512;
    img[root..root + 32].copy_from_slice(&dirent_record(b"HELLO   TXT", 0x20, 0, 3, 1234));
    img[root + 32..root + 64].copy_from_slice(&dirent_record(b"SUBDIR     ", 0x10, 0, 3, 0));
    img[root + 64..root + 96].copy_from_slice(&dirent_record(b"ALONGNAME  ", 0x0F, 0, 0, 0));
    img[root + 96..root + 128].copy_from_slice(&dirent_record(b"\xE5OLD    TXT", 0x20, 0, 9, 77));

    img
}

#[test]
fn mount_and_list_root() {
    let mut sd = SD::new(build_image());
    sd.pi_sd_init().unwrap();

    let mbr = MBR::new(&sd).unwrap();
    assert!(mbr.mbr_check().is_ok());
    assert_eq!(mbr.mbr_get_sigval(), 0xAA55);
    let part = mbr.mbr_get_partition(1);
    assert_eq!(part.mbr_get_parttype(), 0x0C);
    assert_eq!(part.mbr_get_lba_start(), 2);
    assert_eq!(part.mbr_get_nsectors(), 14);

    let mut volume = Fat32::new(part, sd).unwrap();
    assert!(volume.fat32_vol_id_check().is_ok());
    volume.fat32_read_fat().unwrap();

    let root = volume.fat32_get_root();
    assert_eq!(root.name, b"root".to_vec());
    assert_eq!(root.cluster_id, 2);
    assert!(root.is_dir_p);
    assert_eq!(root.nbytes, 0);

    let dir = volume.fat32_read_dir(root).unwrap();
    assert_eq!(dir.n_dirents, 2);
    assert_eq!(dir.dirents.len(), 2);

    assert_eq!(dir.dirents[0].name, b"HELLO   TXT".to_vec());
    assert_eq!(dir.dirents[0].cluster_id, 3);
    assert_eq!(dir.dirents[0].nbytes, 1234);
    assert!(!dir.dirents[0].is_dir_p);

    assert_eq!(dir.dirents[1].name, b"SUBDIR     ".to_vec());
    assert_eq!(dir.dirents[1].cluster_id, 3);
    assert_eq!(dir.dirents[1].nbytes, 0);
    assert!(dir.dirents[1].is_dir_p);
}

#[test]
fn mount_demands_an_initialized_device() {
    let sd = SD::new(build_image());
    let mbr_sector_slot = [0x80u8, 0, 0, 0, 0x0C, 0, 0, 0, 2, 0, 0, 0, 14, 0, 0, 0];
    let part = fat32_storage::mbr::PartitionEntry::new(mbr_sector_slot);
    assert!(matches!(Fat32::new(part, sd), Err(StorageError::DeviceNotInitialized)));
}

#[test]
fn mount_fails_when_the_boot_sector_is_off_the_device() {
    let mut sd = SD::new(vec![0u8; 512]);
    sd.pi_sd_init().unwrap();
    let slot = [0x80u8, 0, 0, 0, 0x0C, 0, 0, 0, 9, 0, 0, 0, 14, 0, 0, 0];
    let part = fat32_storage::mbr::PartitionEntry::new(slot);
    assert!(matches!(Fat32::new(part, sd), Err(StorageError::TransferError)));
}
