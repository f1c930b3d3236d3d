//! FAT32 driver tests: entry classification, chain traversal, and
//! directory enumeration on synthetic tables and devices.

use fat32_storage::error::StorageError;
use fat32_storage::fat32::{
    BootSector, Fat32ClusterType, Fat32Dirent, Fat32DirentAttrs, Fat32Inner, FSInfo,
};
use fat32_storage::sd::SD;

/// Writes the 4-byte little-endian table entry of cluster `idx`.
fn set_entry(fat: &mut Vec<u8>, idx: usize, val: u32) {
    let b = val.to_le_bytes();
    fat[idx * 4..idx * 4 + 4].copy_from_slice(&b);
}

/// A device whose sector `s` is filled with the byte `s * 7 + i mod 256`.
fn numbered_card(nsec: usize) -> Vec<u8> {
    let mut card = Vec::new();
    for s in 0..nsec {
        for i in 0..512 {
            card.push(((s * 7 + i) % 256) as u8);
        }
    }
    card
}

/// A volume over the given table and card, with the data clusters
/// starting at sector 0 so that cluster 2 maps to sector 0.
fn raw_volume(fat: Vec<u8>, n_entries: u32, card: Vec<u8>, spc: u32, initialized: bool) -> Fat32Inner {
    let mut sd = SD::new(card);
    if initialized {
        sd.pi_sd_init().unwrap();
    }
    Fat32Inner {
        lba_start: 0,
        fat_begin_lba: 0,
        clusters_begin_lba: 0,
        sectors_per_cluster: spc,
        root_dir_first_cluster: 2,
        fat,
        n_entries,
        info: FSInfo::new(vec![0u8; 512]),
        boot_sec: BootSector::new(&vec![0u8; 512]),
        sd,
    }
}

/// A 32-byte directory record.
fn dirent_record(name: &[u8; 11], attr: u8, hi: u16, lo: u16, size: u32) -> Vec<u8> {
    let mut r = vec![0u8; 32];
    r[0..11].copy_from_slice(name);
    r[11] = attr;
    r[20..22].copy_from_slice(&hi.to_le_bytes());
    r[26..28].copy_from_slice(&lo.to_le_bytes());
    r[28..32].copy_from_slice(&size.to_le_bytes());
    r
}

#[test]
fn classify_fat_entries() {
    let vol = raw_volume(Vec::new(), 0, Vec::new(), 1, false);
    assert_eq!(vol.get_fat_entry_type(0x0000_0000), Ok(Fat32ClusterType::FreeCluster));
    assert_eq!(vol.get_fat_entry_type(0x0000_0001), Ok(Fat32ClusterType::ReservedCluster));
    assert_eq!(vol.get_fat_entry_type(0x0FFF_FFF7), Ok(Fat32ClusterType::BadCluster));
    assert_eq!(vol.get_fat_entry_type(0x0FFF_FFF8), Ok(Fat32ClusterType::LastCluster));
    assert_eq!(vol.get_fat_entry_type(0x0FFF_FFFF), Ok(Fat32ClusterType::LastCluster));
    assert_eq!(vol.get_fat_entry_type(0x0000_0002), Ok(Fat32ClusterType::UsedCluster));
    assert_eq!(vol.get_fat_entry_type(0x0FFF_FFEF), Ok(Fat32ClusterType::UsedCluster));
}

#[test]
fn classify_ignores_top_four_bits() {
    let vol = raw_volume(Vec::new(), 0, Vec::new(), 1, false);
    assert_eq!(vol.get_fat_entry_type(0xF000_0000), Ok(Fat32ClusterType::FreeCluster));
    assert_eq!(vol.get_fat_entry_type(0xFFFF_FFF8), Ok(Fat32ClusterType::LastCluster));
    assert_eq!(vol.get_fat_entry_type(0xA000_0002), Ok(Fat32ClusterType::UsedCluster));
}

#[test]
fn classify_rejects_reserved_values() {
    let vol = raw_volume(Vec::new(), 0, Vec::new(), 1, false);
    assert_eq!(vol.get_fat_entry_type(0x0FFF_FFF0), Err(StorageError::ClusterChainCorrupt));
    assert_eq!(vol.get_fat_entry_type(0x0FFF_FFF6), Err(StorageError::ClusterChainCorrupt));
}

#[test]
fn chain_length_follows_links() {
    // Chain 2 -> 5 -> 9 -> last.
    let mut fat = vec![0u8; 64];
    set_entry(&mut fat, 2, 5);
    set_entry(&mut fat, 5, 9);
    set_entry(&mut fat, 9, 0x0FFF_FFF8);
    let vol = raw_volume(fat, 16, numbered_card(8), 1, true);
    assert_eq!(vol.get_cluster_chain_length(2), Ok(3));
    assert_eq!(vol.get_cluster_chain_length(5), Ok(2));
    assert_eq!(vol.get_cluster_chain_length(9), Ok(1));
}

#[test]
fn chain_length_zero_on_terminal_start() {
    let fat = vec![0u8; 64];
    let vol = raw_volume(fat, 16, numbered_card(8), 1, true);
    assert_eq!(vol.get_cluster_chain_length(0x0FFF_FFF7), Ok(0));
    assert_eq!(vol.get_cluster_chain_length(1), Ok(0));
    assert_eq!(vol.get_cluster_chain_length(0), Ok(0));
    assert_eq!(vol.get_cluster_chain_length(0x0FFF_FFF8), Ok(0));
}

#[test]
fn chain_length_detects_cycles() {
    let mut fat = vec![0u8; 64];
    set_entry(&mut fat, 2, 3);
    set_entry(&mut fat, 3, 2);
    let vol = raw_volume(fat, 16, numbered_card(8), 1, true);
    assert_eq!(vol.get_cluster_chain_length(2), Err(StorageError::ClusterChainCorrupt));
}

#[test]
fn chain_length_rejects_links_outside_the_table() {
    let mut fat = vec![0u8; 12];
    set_entry(&mut fat, 2, 5);
    let vol = raw_volume(fat, 3, numbered_card(8), 1, true);
    assert_eq!(vol.get_cluster_chain_length(2), Err(StorageError::ClusterChainCorrupt));
}

#[test]
fn chain_data_concatenates_in_traversal_order() {
    let mut fat = vec![0u8; 64];
    set_entry(&mut fat, 2, 5);
    set_entry(&mut fat, 5, 9);
    set_entry(&mut fat, 9, 0x0FFF_FFF8);
    let card = numbered_card(8);
    let vol = raw_volume(fat, 16, card.clone(), 1, true);
    let data = vol.get_cluster_chain_data(2).unwrap();
    assert_eq!(data.len(), 3 * 512);
    // Clusters 2, 5 and 9 map to sectors 0, 3 and 7.
    assert_eq!(data[0..512], card[0..512]);
    assert_eq!(data[512..1024], card[3 * 512..4 * 512]);
    assert_eq!(data[1024..1536], card[7 * 512..8 * 512]);
}

#[test]
fn chain_data_empty_on_terminal_start() {
    let fat = vec![0u8; 64];
    let vol = raw_volume(fat, 16, numbered_card(8), 1, true);
    assert_eq!(vol.get_cluster_chain_data(0x0FFF_FFF7).unwrap().len(), 0);
    assert_eq!(vol.get_cluster_chain_data(1).unwrap().len(), 0);
}

#[test]
fn chain_data_needs_initialized_device() {
    let mut fat = vec![0u8; 64];
    set_entry(&mut fat, 2, 0x0FFF_FFF8);
    let vol = raw_volume(fat, 16, numbered_card(8), 1, false);
    assert_eq!(vol.get_cluster_chain_data(2), Err(StorageError::DeviceNotInitialized));
}

#[test]
fn chain_data_fails_past_the_device_end() {
    let mut fat = vec![0u8; 64];
    set_entry(&mut fat, 9, 0x0FFF_FFF8);
    // Cluster 9 maps to sector 7, but the card has only 4 sectors.
    let vol = raw_volume(fat, 16, numbered_card(4), 1, true);
    assert_eq!(vol.get_cluster_chain_data(9), Err(StorageError::TransferError));
}

#[test]
fn dirent_attribute_bits() {
    let rec = dirent_record(b"HELLO   TXT", 0x21, 0, 3, 1234);
    let d = Fat32Dirent::new(&rec, 0);
    assert!(d.get_dirent_attr(Fat32DirentAttrs::Fat32ReadOnly));
    assert!(!d.get_dirent_attr(Fat32DirentAttrs::Fat32Hidden));
    assert!(!d.get_dirent_attr(Fat32DirentAttrs::Fat32SystemFile));
    assert!(!d.get_dirent_attr(Fat32DirentAttrs::Fat32VolumeLabel));
    assert!(d.get_dirent_attr(Fat32DirentAttrs::Fat32Archive));
    assert!(!d.get_dirent_attr(Fat32DirentAttrs::Fat32Dir));
    assert!(d.dirent_is_lfn());
    assert!(!d.dirent_is_vol_label());
    assert!(!d.dirent_is_free());
}

#[test]
fn dirent_free_and_label_markers() {
    let deleted = dirent_record(b"\xE5ELLO   TXT", 0x20, 0, 0, 0);
    assert!(Fat32Dirent::new(&deleted, 0).dirent_is_free());
    let end = dirent_record(&[0u8; 11], 0x00, 0, 0, 0);
    assert!(Fat32Dirent::new(&end, 0).dirent_is_free());
    let label = dirent_record(b"VOLUME     ", 0x08, 0, 0, 0);
    assert!(Fat32Dirent::new(&label, 0).dirent_is_vol_label());
}

#[test]
fn dirent_cluster_id_combines_halves() {
    let rec = dirent_record(b"HELLO   TXT", 0x20, 0x0012, 0x3456, 0);
    let d = Fat32Dirent::new(&rec, 0);
    assert_eq!(d.dirent_cluster_id(), 0x0012_3456);
}

#[test]
fn dirent_convert_carries_every_field() {
    let rec = dirent_record(b"HELLO   TXT", 0x10, 0, 7, 4096);
    let d = Fat32Dirent::new(&rec, 0).dirent_convert();
    assert_eq!(d.name, b"HELLO   TXT".to_vec());
    assert_eq!(d.raw_name, b"HELLO   TXT".to_vec());
    assert_eq!(d.cluster_id, 7);
    assert!(d.is_dir_p);
    assert_eq!(d.nbytes, 4096);
}

#[test]
fn read_dir_filters_free_lfn_and_label_records() {
    // One directory cluster holding a deleted entry, a long-filename
    // entry, and one valid file; the rest of the sector is free.
    let mut fat = vec![0u8; 64];
    set_entry(&mut fat, 2, 0x0FFF_FFF8);
    let mut card = vec![0u8; 512];
    card[0..32].copy_from_slice(&dirent_record(b"\xE5OLD    TXT", 0x20, 0, 4, 99));
    card[32..64].copy_from_slice(&dirent_record(b"ALONGNAME  ", 0x0F, 0, 0, 0));
    card[64..96].copy_from_slice(&dirent_record(b"HELLO   TXT", 0x20, 0, 3, 1234));
    let vol = raw_volume(fat, 16, card, 1, true);
    let root = vol.fat32_get_root();
    assert_eq!(root.name, b"root".to_vec());
    assert_eq!(root.cluster_id, 2);
    assert!(root.is_dir_p);
    let dir = vol.read_dir(root).unwrap();
    assert_eq!(dir.n_dirents, 1);
    assert_eq!(dir.dirents.len(), 1);
    assert_eq!(dir.dirents[0].name, b"HELLO   TXT".to_vec());
    assert_eq!(dir.dirents[0].cluster_id, 3);
    assert_eq!(dir.dirents[0].nbytes, 1234);
    assert!(!dir.dirents[0].is_dir_p);
}

#[test]
fn read_dir_propagates_chain_corruption() {
    let mut fat = vec![0u8; 64];
    set_entry(&mut fat, 2, 2);
    let vol = raw_volume(fat, 16, numbered_card(8), 1, true);
    let root = vol.fat32_get_root();
    assert!(matches!(vol.read_dir(root), Err(StorageError::ClusterChainCorrupt)));
}

#[test]
fn get_dirents_slices_every_record() {
    let mut fat = vec![0u8; 64];
    set_entry(&mut fat, 2, 0x0FFF_FFF8);
    let mut card = vec![0u8; 512];
    card[0..32].copy_from_slice(&dirent_record(b"A       TXT", 0x20, 0, 3, 1));
    card[480..512].copy_from_slice(&dirent_record(b"Z       TXT", 0x20, 0, 4, 2));
    let vol = raw_volume(fat, 16, card, 1, true);
    let recs = vol.get_dirents(2).unwrap();
    assert_eq!(recs.len(), 16);
    assert_eq!(recs[0].filename, *b"A       TXT");
    assert_eq!(recs[15].filename, *b"Z       TXT");
}

#[test]
fn volume_id_check_accepts_valid_boot_sector() {
    let mut vol = raw_volume(Vec::new(), 0, Vec::new(), 1, false);
    vol.boot_sec = BootSector::new(&valid_boot_sector_bytes());
    assert!(vol.fat32_volume_id_check().is_ok());
}

#[test]
fn volume_id_check_rejects_each_violation() {
    let violations: Vec<(usize, u8)> = vec![
        (11, 0x01), // bytes per sector not 512
        (16, 1),    // one table copy
        (510, 0),   // missing signature
        (13, 3),    // odd sectors per cluster
        (17, 1),    // legacy root-entry count set
        (19, 1),    // legacy total-sector count set
        (22, 1),    // legacy table-size field set
        (48, 2),    // FSInfo not at sector 1
        (50, 5),    // backup boot sector not at 6
        (66, 0x28), // wrong extended signature
    ];
    for (off, val) in violations {
        let mut bytes = valid_boot_sector_bytes();
        bytes[off] = val;
        let mut vol = raw_volume(Vec::new(), 0, Vec::new(), 1, false);
        vol.boot_sec = BootSector::new(&bytes);
        assert_eq!(vol.fat32_volume_id_check(), Err(StorageError::InvalidVolume));
    }
    // A zero total-sector count is also refused.
    let mut bytes = valid_boot_sector_bytes();
    bytes[32] = 0;
    bytes[33] = 0;
    let mut vol = raw_volume(Vec::new(), 0, Vec::new(), 1, false);
    vol.boot_sec = BootSector::new(&bytes);
    assert_eq!(vol.fat32_volume_id_check(), Err(StorageError::InvalidVolume));
}

#[test]
fn read_fat_loads_one_table_copy() {
    let card = numbered_card(3);
    let mut vol = raw_volume(Vec::new(), 128, card.clone(), 1, true);
    vol.boot_sec = BootSector::new(&valid_boot_sector_bytes());
    vol.fat_begin_lba = 1;
    vol.fat32_read_fat().unwrap();
    assert_eq!(vol.fat[..], card[512..1024]);
}

#[test]
fn read_fat_failure_leaves_the_table_alone() {
    let mut vol = raw_volume(vec![1, 2, 3, 4], 1, numbered_card(1), 1, true);
    vol.boot_sec = BootSector::new(&valid_boot_sector_bytes());
    vol.fat_begin_lba = 5;
    assert_eq!(vol.fat32_read_fat(), Err(StorageError::TransferError));
    assert_eq!(vol.fat, vec![1, 2, 3, 4]);
}

#[test]
fn boot_sector_fields_slice_at_their_offsets() {
    let mut s = vec![0u8; 512];
    s[0..3].copy_from_slice(&[0xEB, 0x58, 0x90]);
    s[3..11].copy_from_slice(b"MSWIN4.1");
    s[11] = 0x00;
    s[12] = 0x02;
    s[13] = 8;
    s[14] = 0x20;
    s[16] = 2;
    s[21] = 0xF8;
    s[36..40].copy_from_slice(&0x0000_03F1u32.to_le_bytes());
    s[44..48].copy_from_slice(&2u32.to_le_bytes());
    s[48] = 1;
    s[50] = 6;
    s[64] = 0x80;
    s[66] = 0x29;
    s[67..71].copy_from_slice(&0xDEAD_BEEFu32.to_le_bytes());
    s[71..82].copy_from_slice(b"NO NAME    ");
    s[82..90].copy_from_slice(b"FAT32   ");
    s[510] = 0x55;
    s[511] = 0xAA;
    let b = BootSector::new(&s);
    assert_eq!(b.asm_code, [0xEB, 0x58, 0x90]);
    assert_eq!(b.oem, *b"MSWIN4.1");
    assert_eq!(b.bytes_per_sec, [0x00, 0x02]);
    assert_eq!(b.sec_per_cluster, 8);
    assert_eq!(b.reserved_area_nsec, [0x20, 0x00]);
    assert_eq!(b.nfats, 2);
    assert_eq!(b.media_type, 0xF8);
    assert_eq!(b.nsec_per_fat, 0x0000_03F1u32.to_le_bytes());
    assert_eq!(b.first_cluster, 2u32.to_le_bytes());
    assert_eq!(b.info_sec_num, [1, 0]);
    assert_eq!(b.backup_boot_loc, [6, 0]);
    assert_eq!(b.logical_drive_num, 0x80);
    assert_eq!(b.extended_sig, 0x29);
    assert_eq!(b.serial_num, 0xDEAD_BEEFu32.to_le_bytes());
    assert_eq!(b.volume_label, *b"NO NAME    ");
    assert_eq!(b.fs_type, *b"FAT32   ");
    assert_eq!(b.sig, [0x55, 0xAA]);
}

#[test]
fn fsinfo_fields_decode_little_endian() {
    let mut s = vec![0u8; 512];
    s[0..4].copy_from_slice(&0x4161_5252u32.to_le_bytes());
    s[484..488].copy_from_slice(&0x6141_7272u32.to_le_bytes());
    s[488..492].copy_from_slice(&1234u32.to_le_bytes());
    s[492..496].copy_from_slice(&56u32.to_le_bytes());
    s[508..512].copy_from_slice(&0xAA55_0000u32.to_le_bytes());
    let f = FSInfo::new(s);
    assert_eq!(f.sig1, 0x4161_5252);
    assert_eq!(f.sig2, 0x6141_7272);
    assert_eq!(f.free_cluster_count, 1234);
    assert_eq!(f.next_free_cluster, 56);
    assert_eq!(f.sig3, 0xAA55_0000);
}

#[test]
fn cluster_to_lba_formula() {
    let mut vol = raw_volume(Vec::new(), 0, Vec::new(), 4, false);
    vol.clusters_begin_lba = 100;
    assert_eq!(vol.cluster_to_lba(2), 100);
    assert_eq!(vol.cluster_to_lba(3), 104);
    assert_eq!(vol.cluster_to_lba(10), 132);
}

#[test]
fn next_cluster_value_reads_four_bytes_at_offset() {
    let mut fat = vec![0u8; 64];
    set_entry(&mut fat, 2, 0x0012_3456);
    set_entry(&mut fat, 7, 0x0FFF_FFF8);
    let vol = raw_volume(fat, 16, Vec::new(), 1, false);
    assert_eq!(vol.get_next_cluster_val(2), 0x0012_3456);
    assert_eq!(vol.get_next_cluster_val(7), 0x0FFF_FFF8);
    // The top four bits of the asked-for cluster are ignored.
    assert_eq!(vol.get_next_cluster_val(0xA000_0002), 0x0012_3456);
}

/// A boot sector satisfying every volume invariant: 512 bytes per
/// sector, 2 sectors per cluster, 3 reserved sectors, 2 table copies
/// of 1 sector each, root at cluster 2, FSInfo at 1, backup at 6.
fn valid_boot_sector_bytes() -> Vec<u8> {
    let mut s = vec![0u8; 512];
    s[12] = 0x02; // 512 bytes per sector
    s[13] = 2; // sectors per cluster
    s[14] = 3; // reserved sectors
    s[16] = 2; // table copies
    s[33] = 0x01; // 0x100 sectors in the volume
    s[36] = 1; // sectors per table copy
    s[44] = 2; // root directory cluster
    s[48] = 1; // FSInfo sector
    s[50] = 6; // backup boot sector
    s[66] = 0x29; // extended signature
    s[510] = 0x55;
    s[511] = 0xAA;
    s
}
