//! Master boot record partition-table reader.
//!
//! Sector 0 of the device holds 446 bytes of boot code, four 16-byte
//! partition slots, and a 2-byte trailing signature. This design mounts
//! a single FAT32 volume: validation demands that slot 1 is a non-empty
//! FAT32 partition and that slots 2 to 4 are entirely zero.

use vstd::prelude::*;

use crate::codec::{arr_to_u16, arr_to_u32, le16, le32};
use crate::error::StorageError;
use crate::sd::{sec_range_ok, sector_bytes, SD};

verus! {

/// One decoded 16-byte partition slot.
///
/// The legacy cylinder/head/sector triples are carried but never used
/// for addressing; the 32-bit little-endian start address and sector
/// count are what the FAT32 driver consumes.
#[derive(Clone, Copy)]
pub struct PartitionEntry {
    /// Bootable flag byte.
    pub bootable_p: u8,
    /// Legacy cylinder/head/sector start triple.
    pub chs_start: [u8; 3],
    /// One-byte partition type code.
    pub part_type: u8,
    /// Legacy cylinder/head/sector end triple.
    pub chs_end: [u8; 3],
    /// First logical block address of the partition.
    pub lba_start: u32,
    /// Number of sectors in the partition.
    pub nsec: u32,
}

/// True when `e` is the decoding of the 16-byte slot `s`.
pub open spec fn is_entry_of(e: PartitionEntry, s: Seq<u8>) -> bool
    recommends
        s.len() == 16,
{
    &&& e.bootable_p == s[0]
    &&& e.chs_start@ == s.subrange(1, 4)
    &&& e.part_type == s[4]
    &&& e.chs_end@ == s.subrange(5, 8)
    &&& e.lba_start == le32(s.subrange(8, 12))
    &&& e.nsec == le32(s.subrange(12, 16))
}

/// True for the two FAT32 partition type codes.
pub open spec fn is_fat32_type(t: u8) -> bool {
    t == 0x0B || t == 0x0C
}

/// True when every byte of the slot is zero.
pub open spec fn slot_empty(s: Seq<u8>) -> bool {
    forall|i: int| 0 <= i < s.len() ==> s[i] == 0
}

impl PartitionEntry {
    /// Decodes one 16-byte partition slot.
    ///
    /// A pure, deterministic decode: every field of the result is a
    /// function of the given bytes alone.
    pub fn new(part: [u8; 16]) -> (e: Self)
        ensures
            is_entry_of(e, part@),
    {
        let e = Self {
            bootable_p: part[0],
            chs_start: [part[1], part[2], part[3]],
            part_type: part[4],
            chs_end: [part[5], part[6], part[7]],
            lba_start: arr_to_u32([part[8], part[9], part[10], part[11]]),
            nsec: arr_to_u32([part[12], part[13], part[14], part[15]]),
        };
        proof {
            assert(e.chs_start@ =~= part@.subrange(1, 4));
            assert(e.chs_end@ =~= part@.subrange(5, 8));
            assert(seq![part@[8], part@[9], part@[10], part@[11]] =~= part@.subrange(8, 12));
            assert(seq![part@[12], part@[13], part@[14], part@[15]] =~= part@.subrange(12, 16));
        }
        e
    }

    /// The human-readable name of the partition type, for diagnostics.
    pub fn mbr_partition_string(&self) -> (r: &'static str)
        ensures
            r@ == part_type_name(self.part_type),
    {
        match self.part_type {
            0x00 => "Empty",
            0x01 => "FAT12 - CHS",
            0x04 => "FAT16 - 16-32 MB - CHS",
            0x05 => "Microsoft Extended - CHS",
            0x06 => "FAT16 - 32 MB-2 GB - CHS",
            0x07 => "NTFS",
            0x0b => "FAT32 - CHS",
            0x0c => "FAT32 - LBA",
            0x0e => "FAT16 - 32 MB-2 GB - LBA",
            0x0f => "Microsoft Extended - LBA",
            0x11 => "Hidden FAT12 - CHS",
            0x14 => "Hidden FAT16 - 16-32 MB - CHS",
            0x16 => "Hidden FAT16 - 32 MB-2 GB - CHS",
            0x1b => "Hidden FAT32 - CHS",
            0x1c => "Hidden FAT32 - LBA",
            0x1e => "Hidden FAT16 - 32 MB-2 GB - LBA",
            0x42 => "Microsoft MBR - Dynamic Disk",
            0x82 => "Solaris x86 or Linux swap?",
            0x83 => "Linux",
            0x84 => "Hibernation",
            0x85 => "Linux Extended",
            0x86 => "NTFS Volume Set",
            0x87 => "NTFS Volume Set",
            0xa0 => "Hibernation",
            0xa1 => "Hibernation",
            0xa5 => "FreeBSD",
            0xa6 => "OpenBSD",
            0xa8 => "Mac OSX",
            0xa9 => "NetBSD",
            0xab => "Mac OSX Boot",
            0xb7 => "BSDI",
            0xb8 => "BSDI swap",
            0xee => "EFI GPT Disk",
            0xef => "EFI System Partition",
            0xfb => "Vmware File System",
            0xfc => "Vmware swap",
            _ => "Undefined",
        }
    }

    /// The partition's sector count.
    pub fn mbr_get_nsectors(&self) -> (r: u32)
        ensures
            r == self.nsec,
    {
        self.nsec
    }

    /// The partition's type code.
    pub fn mbr_get_parttype(&self) -> (r: u8)
        ensures
            r == self.part_type,
    {
        self.part_type
    }

    /// The partition's first logical block address.
    pub fn mbr_get_lba_start(&self) -> (r: u32)
        ensures
            r == self.lba_start,
    {
        self.lba_start
    }
}

/// The human-readable name of each partition type code.
pub open spec fn part_type_name(t: u8) -> Seq<char> {
    if t == 0x00 {
        "Empty"@
    } else if t == 0x01 {
        "FAT12 - CHS"@
    } else if t == 0x04 {
        "FAT16 - 16-32 MB - CHS"@
    } else if t == 0x05 {
        "Microsoft Extended - CHS"@
    } else if t == 0x06 {
        "FAT16 - 32 MB-2 GB - CHS"@
    } else if t == 0x07 {
        "NTFS"@
    } else if t == 0x0b {
        "FAT32 - CHS"@
    } else if t == 0x0c {
        "FAT32 - LBA"@
    } else if t == 0x0e {
        "FAT16 - 32 MB-2 GB - LBA"@
    } else if t == 0x0f {
        "Microsoft Extended - LBA"@
    } else if t == 0x11 {
        "Hidden FAT12 - CHS"@
    } else if t == 0x14 {
        "Hidden FAT16 - 16-32 MB - CHS"@
    } else if t == 0x16 {
        "Hidden FAT16 - 32 MB-2 GB - CHS"@
    } else if t == 0x1b {
        "Hidden FAT32 - CHS"@
    } else if t == 0x1c {
        "Hidden FAT32 - LBA"@
    } else if t == 0x1e {
        "Hidden FAT16 - 32 MB-2 GB - LBA"@
    } else if t == 0x42 {
        "Microsoft MBR - Dynamic Disk"@
    } else if t == 0x82 {
        "Solaris x86 or Linux swap?"@
    } else if t == 0x83 {
        "Linux"@
    } else if t == 0x84 || t == 0xa0 || t == 0xa1 {
        "Hibernation"@
    } else if t == 0x85 {
        "Linux Extended"@
    } else if t == 0x86 || t == 0x87 {
        "NTFS Volume Set"@
    } else if t == 0xa5 {
        "FreeBSD"@
    } else if t == 0xa6 {
        "OpenBSD"@
    } else if t == 0xa8 {
        "Mac OSX"@
    } else if t == 0xa9 {
        "NetBSD"@
    } else if t == 0xab {
        "Mac OSX Boot"@
    } else if t == 0xb7 {
        "BSDI"@
    } else if t == 0xb8 {
        "BSDI swap"@
    } else if t == 0xee {
        "EFI GPT Disk"@
    } else if t == 0xef {
        "EFI System Partition"@
    } else if t == 0xfb {
        "Vmware File System"@
    } else if t == 0xfc {
        "Vmware swap"@
    } else {
        "Undefined"@
    }
}

/// The raw master boot record: boot code, four partition slots, and the
/// trailing signature, exactly as read from sector 0.
pub struct MBRInner {
    /// The 446-byte boot-code region, preserved but never executed.
    pub code: Vec<u8>,
    /// Partition slot 1.
    pub part_tab1: [u8; 16],
    /// Partition slot 2.
    pub part_tab2: [u8; 16],
    /// Partition slot 3.
    pub part_tab3: [u8; 16],
    /// Partition slot 4.
    pub part_tab4: [u8; 16],
    /// The trailing 2-byte signature.
    pub sigval: [u8; 2],
}

/// True when `m` holds the fields of the 512-byte sector `s`.
pub open spec fn is_mbr_of(m: MBRInner, s: Seq<u8>) -> bool
    recommends
        s.len() == 512,
{
    &&& m.code@ == s.subrange(0, 446)
    &&& m.part_tab1@ == s.subrange(446, 462)
    &&& m.part_tab2@ == s.subrange(462, 478)
    &&& m.part_tab3@ == s.subrange(478, 494)
    &&& m.part_tab4@ == s.subrange(494, 510)
    &&& m.sigval@ == s.subrange(510, 512)
}

/// True when the record satisfies every mount-time invariant: trailing
/// signature bytes 0x55, 0xAA; slot 1 non-empty and of a FAT32 type;
/// slots 2 to 4 entirely zero.
pub open spec fn mbr_valid(m: MBRInner) -> bool {
    &&& m.sigval@[0] == 0x55
    &&& m.sigval@[1] == 0xAA
    &&& is_fat32_type(m.part_tab1@[4])
    &&& !slot_empty(m.part_tab1@)
    &&& slot_empty(m.part_tab2@)
    &&& slot_empty(m.part_tab3@)
    &&& slot_empty(m.part_tab4@)
}

/// The bytes of slot `partno` (1 to 4).
pub open spec fn slot_bytes(m: MBRInner, partno: u32) -> Seq<u8>
    recommends
        1 <= partno <= 4,
{
    if partno == 1 {
        m.part_tab1@
    } else if partno == 2 {
        m.part_tab2@
    } else if partno == 3 {
        m.part_tab3@
    } else {
        m.part_tab4@
    }
}

/// Copies 16 bytes at `off` out of a sector buffer.
fn slot16(v: &Vec<u8>, off: usize) -> (r: [u8; 16])
    requires
        off + 16 <= v@.len(),
    ensures
        r@ == v@.subrange(off as int, off + 16),
{
    let n: usize = v.len();
    assert(off + 16 <= n);
    let r = [
        v[off],
        v[off + 1],
        v[off + 2],
        v[off + 3],
        v[off + 4],
        v[off + 5],
        v[off + 6],
        v[off + 7],
        v[off + 8],
        v[off + 9],
        v[off + 10],
        v[off + 11],
        v[off + 12],
        v[off + 13],
        v[off + 14],
        v[off + 15],
    ];
    proof {
        assert(r@ =~= v@.subrange(off as int, off + 16));
    }
    r
}

impl MBRInner {
    /// Slices sector 0 into the record's fixed regions.
    pub fn new(boot_sector: Vec<u8>) -> (m: Self)
        requires
            boot_sector@.len() == 512,
        ensures
            is_mbr_of(m, boot_sector@),
    {
        let mut code: Vec<u8> = Vec::new();
        let mut i: usize = 0;
        while i < 446
            invariant
                i <= 446,
                boot_sector@.len() == 512,
                code@ == boot_sector@.subrange(0, i as int),
            decreases 446 - i,
        {
            code.push(boot_sector[i]);
            proof {
                assert(boot_sector@.subrange(0, i + 1) =~= boot_sector@.subrange(0, i as int).push(
                    boot_sector@[i as int],
                ));
            }
            i = i + 1;
        }
        let m = Self {
            code,
            part_tab1: slot16(&boot_sector, 446),
            part_tab2: slot16(&boot_sector, 462),
            part_tab3: slot16(&boot_sector, 478),
            part_tab4: slot16(&boot_sector, 494),
            sigval: [boot_sector[510], boot_sector[511]],
        };
        proof {
            assert(m.sigval@ =~= boot_sector@.subrange(510, 512));
        }
        m
    }

    /// True for the two FAT32 partition type codes.
    pub fn mbr_part_is_fat32(t: u8) -> (r: bool)
        ensures
            r == is_fat32_type(t),
    {
        t == 0x0B || t == 0x0C
    }

    /// True when every byte of the slot is zero.
    pub fn mbr_partition_empty(part: [u8; 16]) -> (r: bool)
        ensures
            r == slot_empty(part@),
    {
        let mut i: usize = 0;
        while i < 16
            invariant
                i <= 16,
                forall|j: int| 0 <= j < i ==> part@[j] == 0,
            decreases 16 - i,
        {
            if part[i] != 0 {
                return false;
            }
            i = i + 1;
        }
        true
    }

    /// Validates the record: trailing signature 0x55, 0xAA; slot 1
    /// non-empty and of a FAT32 type; slots 2 to 4 entirely zero.
    /// Succeeds exactly when every invariant holds.
    pub fn mbr_check(&self) -> (r: Result<(), StorageError>)
        ensures
            r is Ok <==> mbr_valid(*self),
            r is Err ==> r == Err::<(), StorageError>(StorageError::InvalidPartitionTable),
    {
        if self.sigval[0] != 0x55 || self.sigval[1] != 0xAA {
            return Err(StorageError::InvalidPartitionTable);
        }
        let part = self.get_partition(1);
        if !Self::mbr_part_is_fat32(part.part_type) {
            return Err(StorageError::InvalidPartitionTable);
        }
        if Self::mbr_partition_empty(self.part_tab1) {
            return Err(StorageError::InvalidPartitionTable);
        }
        if !Self::mbr_partition_empty(self.part_tab2) {
            return Err(StorageError::InvalidPartitionTable);
        }
        if !Self::mbr_partition_empty(self.part_tab3) {
            return Err(StorageError::InvalidPartitionTable);
        }
        if !Self::mbr_partition_empty(self.part_tab4) {
            return Err(StorageError::InvalidPartitionTable);
        }
        Ok(())
    }

    /// Decodes partition slot `partno` (1 to 4).
    pub fn get_partition(&self, partno: u32) -> (e: PartitionEntry)
        requires
            1 <= partno <= 4,
        ensures
            is_entry_of(e, slot_bytes(*self, partno)),
    {
        if partno == 1 {
            PartitionEntry::new(self.part_tab1)
        } else if partno == 2 {
            PartitionEntry::new(self.part_tab2)
        } else if partno == 3 {
            PartitionEntry::new(self.part_tab3)
        } else {
            PartitionEntry::new(self.part_tab4)
        }
    }

    /// The trailing signature reassembled little-endian; 0xAA55 on a
    /// well-formed record.
    pub fn get_sigval(&self) -> (r: u16)
        ensures
            r == le16(self.sigval@),
    {
        arr_to_u16(self.sigval)
    }
}

/// The partition table reader exposed to the rest of the kernel.
pub struct MBR {
    /// The decoded record.
    pub inner: MBRInner,
}

impl MBR {
    /// Reads sector 0 of an initialized device and slices it into the
    /// record's regions. Succeeds exactly when the read does.
    pub fn new(sd: &SD) -> (r: Result<Self, StorageError>)
        ensures
            r is Ok <==> sd.inner.initialized && sec_range_ok(sd.inner.card@.len() as int, 0, 1),
            r is Ok ==> is_mbr_of(r.unwrap().inner, sector_bytes(sd.inner.card@, 0, 1)),
            !sd.inner.initialized ==> r == Err::<Self, StorageError>(
                StorageError::DeviceNotInitialized,
            ),
            sd.inner.initialized && !sec_range_ok(sd.inner.card@.len() as int, 0, 1) ==> r
                == Err::<Self, StorageError>(StorageError::TransferError),
    {
        let boot_sector = match sd.pi_sec_read(0, 1) {
            Ok(v) => v,
            Err(e) => {
                return Err(e);
            },
        };
        Ok(Self { inner: MBRInner::new(boot_sector) })
    }

    /// A greeting, used while bringing the console up.
    pub fn say_hello(&self) -> (r: &'static str)
        ensures
            r@ == "Hello from the MBR reader!"@,
    {
        "Hello from the MBR reader!"
    }

    /// Decodes partition slot `partno` (1 to 4).
    pub fn mbr_get_partition(&self, partno: u32) -> (e: PartitionEntry)
        requires
            1 <= partno <= 4,
        ensures
            is_entry_of(e, slot_bytes(self.inner, partno)),
    {
        self.inner.get_partition(partno)
    }

    /// The trailing signature reassembled little-endian.
    pub fn mbr_get_sigval(&self) -> (r: u16)
        ensures
            r == le16(self.inner.sigval@),
    {
        self.inner.get_sigval()
    }

    /// Validates the record; succeeds exactly when every mount-time
    /// invariant holds.
    pub fn mbr_check(&self) -> (r: Result<(), StorageError>)
        ensures
            r is Ok <==> mbr_valid(self.inner),
            r is Err ==> r == Err::<(), StorageError>(StorageError::InvalidPartitionTable),
    {
        self.inner.mbr_check()
    }
}

} // verus!
