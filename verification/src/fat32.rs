//! FAT32 volume driver.
//!
//! Decodes the boot sector and FSInfo block of a FAT32 partition,
//! classifies file allocation table entries, walks cluster chains, and
//! enumerates directories. Every multi-byte on-disk field is
//! little-endian and decoded field by field.

use vstd::prelude::*;

use crate::codec::{arr_to_u16, arr_to_u32, bytes11, bytes2, bytes3, bytes4, bytes8, le16, le32};
use crate::error::StorageError;
use crate::mbr::PartitionEntry;
use crate::sd::{sec_range_ok, sector_bytes, SD};

verus! {

/// The boot sector (BIOS parameter block) of a FAT32 volume, held as
/// the raw bytes of each field, exactly as read from disk.
pub struct BootSector {
    /// Jump instruction bytes.
    pub asm_code: [u8; 3],
    /// OEM name.
    pub oem: [u8; 8],
    /// Bytes per sector; must decode to 512.
    pub bytes_per_sec: [u8; 2],
    /// Sectors per cluster.
    pub sec_per_cluster: u8,
    /// Sectors reserved before the first file allocation table copy.
    pub reserved_area_nsec: [u8; 2],
    /// Number of file allocation table copies; must equal 2.
    pub nfats: u8,
    /// Root-entry count of older FAT variants; must decode to 0.
    pub max_files: [u8; 2],
    /// 16-bit total-sector count of older FAT variants; must decode to 0.
    pub fs_nsec: [u8; 2],
    /// Media descriptor byte.
    pub media_type: u8,
    /// 16-bit table-size field of older FAT variants; must decode to 0.
    pub zero: [u8; 2],
    /// Sectors per track, legacy geometry.
    pub sec_per_track: [u8; 2],
    /// Head count, legacy geometry.
    pub n_heads: [u8; 2],
    /// Sectors preceding the partition.
    pub hidden_secs: [u8; 4],
    /// Total sectors of the volume; must decode to a non-zero value.
    pub nsec_in_fs: [u8; 4],
    /// Sectors occupied by one file allocation table copy.
    pub nsec_per_fat: [u8; 4],
    /// Mirroring flags.
    pub mirror_flags: [u8; 2],
    /// Filesystem version.
    pub version: [u8; 2],
    /// First cluster of the root directory.
    pub first_cluster: [u8; 4],
    /// Sector number of the FSInfo structure; must decode to 1.
    pub info_sec_num: [u8; 2],
    /// Sector number of the backup boot sector; must decode to 6.
    pub backup_boot_loc: [u8; 2],
    /// Logical drive number.
    pub logical_drive_num: u8,
    /// Extended signature byte; must equal 0x29.
    pub extended_sig: u8,
    /// Volume serial number.
    pub serial_num: [u8; 4],
    /// Volume label.
    pub volume_label: [u8; 11],
    /// Filesystem type string.
    pub fs_type: [u8; 8],
    /// Trailing signature; must decode to 0xAA55.
    pub sig: [u8; 2],
}

/// True when `b` holds the fields of the 512-byte boot sector `s`.
pub open spec fn is_boot_sector_of(b: BootSector, s: Seq<u8>) -> bool
    recommends
        s.len() == 512,
{
    &&& b.asm_code@ == s.subrange(0, 3)
    &&& b.oem@ == s.subrange(3, 11)
    &&& b.bytes_per_sec@ == s.subrange(11, 13)
    &&& b.sec_per_cluster == s[13]
    &&& b.reserved_area_nsec@ == s.subrange(14, 16)
    &&& b.nfats == s[16]
    &&& b.max_files@ == s.subrange(17, 19)
    &&& b.fs_nsec@ == s.subrange(19, 21)
    &&& b.media_type == s[21]
    &&& b.zero@ == s.subrange(22, 24)
    &&& b.sec_per_track@ == s.subrange(24, 26)
    &&& b.n_heads@ == s.subrange(26, 28)
    &&& b.hidden_secs@ == s.subrange(28, 32)
    &&& b.nsec_in_fs@ == s.subrange(32, 36)
    &&& b.nsec_per_fat@ == s.subrange(36, 40)
    &&& b.mirror_flags@ == s.subrange(40, 42)
    &&& b.version@ == s.subrange(42, 44)
    &&& b.first_cluster@ == s.subrange(44, 48)
    &&& b.info_sec_num@ == s.subrange(48, 50)
    &&& b.backup_boot_loc@ == s.subrange(50, 52)
    &&& b.logical_drive_num == s[64]
    &&& b.extended_sig == s[66]
    &&& b.serial_num@ == s.subrange(67, 71)
    &&& b.volume_label@ == s.subrange(71, 82)
    &&& b.fs_type@ == s.subrange(82, 90)
    &&& b.sig@ == s.subrange(510, 512)
}

impl BootSector {
    /// Slices a 512-byte boot sector into its fields.
    pub fn new(sector: &Vec<u8>) -> (b: Self)
        requires
            sector@.len() == 512,
        ensures
            is_boot_sector_of(b, sector@),
    {
        Self {
            asm_code: bytes3(sector, 0),
            oem: bytes8(sector, 3),
            bytes_per_sec: bytes2(sector, 11),
            sec_per_cluster: sector[13],
            reserved_area_nsec: bytes2(sector, 14),
            nfats: sector[16],
            max_files: bytes2(sector, 17),
            fs_nsec: bytes2(sector, 19),
            media_type: sector[21],
            zero: bytes2(sector, 22),
            sec_per_track: bytes2(sector, 24),
            n_heads: bytes2(sector, 26),
            hidden_secs: bytes4(sector, 28),
            nsec_in_fs: bytes4(sector, 32),
            nsec_per_fat: bytes4(sector, 36),
            mirror_flags: bytes2(sector, 40),
            version: bytes2(sector, 42),
            first_cluster: bytes4(sector, 44),
            info_sec_num: bytes2(sector, 48),
            backup_boot_loc: bytes2(sector, 50),
            logical_drive_num: sector[64],
            extended_sig: sector[66],
            serial_num: bytes4(sector, 67),
            volume_label: bytes11(sector, 71),
            fs_type: bytes8(sector, 82),
            sig: bytes2(sector, 510),
        }
    }
}

/// The FSInfo sector: free-cluster bookkeeping hints, informational
/// only and never authoritative.
pub struct FSInfo {
    /// Lead signature.
    pub sig1: u32,
    /// Structure signature.
    pub sig2: u32,
    /// Hint for the count of free clusters.
    pub free_cluster_count: u32,
    /// Hint for the next free cluster.
    pub next_free_cluster: u32,
    /// Trail signature.
    pub sig3: u32,
}

/// True when `f` holds the decoded fields of the 512-byte FSInfo
/// sector `s`.
pub open spec fn is_fsinfo_of(f: FSInfo, s: Seq<u8>) -> bool
    recommends
        s.len() == 512,
{
    &&& f.sig1 == le32(s.subrange(0, 4))
    &&& f.sig2 == le32(s.subrange(484, 488))
    &&& f.free_cluster_count == le32(s.subrange(488, 492))
    &&& f.next_free_cluster == le32(s.subrange(492, 496))
    &&& f.sig3 == le32(s.subrange(508, 512))
}

impl FSInfo {
    /// Decodes the FSInfo fields out of their 512-byte sector.
    pub fn new(info_sector: Vec<u8>) -> (f: Self)
        requires
            info_sector@.len() == 512,
        ensures
            is_fsinfo_of(f, info_sector@),
    {
        Self {
            sig1: arr_to_u32(bytes4(&info_sector, 0)),
            sig2: arr_to_u32(bytes4(&info_sector, 484)),
            free_cluster_count: arr_to_u32(bytes4(&info_sector, 488)),
            next_free_cluster: arr_to_u32(bytes4(&info_sector, 492)),
            sig3: arr_to_u32(bytes4(&info_sector, 508)),
        }
    }
}

/// A converted directory entry: the logical view handed to callers.
pub struct Dirent {
    /// The 8.3 name, as the raw 11 filename bytes.
    pub name: Vec<u8>,
    /// The unconverted filename bytes.
    pub raw_name: Vec<u8>,
    /// First cluster of the entry's data.
    pub cluster_id: u32,
    /// File size in bytes.
    pub nbytes: u32,
    /// Whether the entry is a directory.
    pub is_dir_p: bool,
}

/// An on-disk 32-byte directory record, held as the raw bytes of each
/// field.
pub struct Fat32Dirent {
    /// 8-byte filename and 3-byte extension, packed.
    pub filename: [u8; 11],
    /// Attribute bitmask.
    pub attr: u8,
    /// Reserved byte.
    pub reserved: u8,
    /// Creation time, tenths of a second.
    pub create_time_tenths: u8,
    /// Creation time.
    pub create_time: [u8; 2],
    /// Creation date.
    pub create_date: [u8; 2],
    /// Last access date.
    pub access_date: [u8; 2],
    /// High 16 bits of the starting cluster.
    pub hi_start: [u8; 2],
    /// Modification time.
    pub mod_time: [u8; 2],
    /// Modification date.
    pub mod_date: [u8; 2],
    /// Low 16 bits of the starting cluster.
    pub lo_start: [u8; 2],
    /// File size in bytes.
    pub file_nbytes: [u8; 4],
}

/// True when `d` holds the fields of the 32-byte record `s`.
pub open spec fn is_dirent_of(d: Fat32Dirent, s: Seq<u8>) -> bool
    recommends
        s.len() == 32,
{
    &&& d.filename@ == s.subrange(0, 11)
    &&& d.attr == s[11]
    &&& d.reserved == s[12]
    &&& d.create_time_tenths == s[13]
    &&& d.create_time@ == s.subrange(14, 16)
    &&& d.create_date@ == s.subrange(16, 18)
    &&& d.access_date@ == s.subrange(18, 20)
    &&& d.hi_start@ == s.subrange(20, 22)
    &&& d.mod_time@ == s.subrange(22, 24)
    &&& d.mod_date@ == s.subrange(24, 26)
    &&& d.lo_start@ == s.subrange(26, 28)
    &&& d.file_nbytes@ == s.subrange(28, 32)
}

/// The directory-entry attribute bits.
#[derive(PartialEq, Eq, Structural, Clone, Copy)]
pub enum Fat32DirentAttrs {
    /// Read-only flag, bit 0x01.
    Fat32ReadOnly,
    /// Hidden flag, bit 0x02.
    Fat32Hidden,
    /// System-file flag, bit 0x04.
    Fat32SystemFile,
    /// Volume-label flag, bit 0x08.
    Fat32VolumeLabel,
    /// Long-filename marker, the low nibble 0x0F.
    Fat32LongFileName,
    /// Directory flag, bit 0x10.
    Fat32Dir,
    /// Archive flag, bit 0x20.
    Fat32Archive,
}

/// The bitmask each attribute tests.
pub open spec fn dirent_attr_mask(a: Fat32DirentAttrs) -> u8 {
    match a {
        Fat32DirentAttrs::Fat32ReadOnly => 0x01,
        Fat32DirentAttrs::Fat32Hidden => 0x02,
        Fat32DirentAttrs::Fat32SystemFile => 0x04,
        Fat32DirentAttrs::Fat32VolumeLabel => 0x08,
        Fat32DirentAttrs::Fat32LongFileName => 0x0f,
        Fat32DirentAttrs::Fat32Dir => 0x10,
        Fat32DirentAttrs::Fat32Archive => 0x20,
    }
}

/// True when the attribute byte marks a long-filename continuation.
pub open spec fn is_lfn_attr(attr: u8) -> bool {
    attr & 0x0f != 0
}

/// True when the attribute byte carries the volume-label bit.
pub open spec fn is_vol_label_attr(attr: u8) -> bool {
    attr & 0x08 != 0
}

/// True when the attribute byte carries the directory bit.
pub open spec fn is_dir_attr(attr: u8) -> bool {
    attr & 0x10 != 0
}

/// True when the first filename byte marks the record free: 0x00 ends
/// the directory, 0xE5 marks a deleted entry.
pub open spec fn is_free_name(b: u8) -> bool {
    b == 0 || b == 0xe5
}

/// The starting cluster assembled from its high and low halves.
pub open spec fn dirent_cluster(hi: Seq<u8>, lo: Seq<u8>) -> int
    recommends
        hi.len() == 2,
        lo.len() == 2,
{
    0x10000 * le16(hi) + le16(lo)
}

/// True when the raw record is retained by directory enumeration:
/// neither a long-filename continuation, nor free, nor a volume label.
pub open spec fn keep_rec(s: Seq<u8>) -> bool
    recommends
        s.len() == 32,
{
    !is_lfn_attr(s[11]) && !is_free_name(s[0]) && !is_vol_label_attr(s[11])
}

/// True when `d` is the logical conversion of the raw record `f`.
pub open spec fn is_converted(d: Dirent, f: Fat32Dirent) -> bool {
    &&& d.name@ == f.filename@
    &&& d.raw_name@ == f.filename@
    &&& d.cluster_id == dirent_cluster(f.hi_start@, f.lo_start@)
    &&& d.is_dir_p == is_dir_attr(f.attr)
    &&& d.nbytes == le32(f.file_nbytes@)
}

impl Fat32Dirent {
    /// Slices the 32-byte record at `off` into its fields.
    pub fn new(data: &Vec<u8>, off: usize) -> (d: Self)
        requires
            off + 32 <= data@.len(),
        ensures
            is_dirent_of(d, data@.subrange(off as int, off + 32)),
    {
        let n: usize = data.len();
        assert(off + 32 <= n);
        let d = Self {
            filename: bytes11(data, off),
            attr: data[off + 11],
            reserved: data[off + 12],
            create_time_tenths: data[off + 13],
            create_time: bytes2(data, off + 14),
            create_date: bytes2(data, off + 16),
            access_date: bytes2(data, off + 18),
            hi_start: bytes2(data, off + 20),
            mod_time: bytes2(data, off + 22),
            mod_date: bytes2(data, off + 24),
            lo_start: bytes2(data, off + 26),
            file_nbytes: bytes4(data, off + 28),
        };
        proof {
            let s = data@.subrange(off as int, off + 32);
            assert(d.filename@ =~= s.subrange(0, 11));
            assert(d.create_time@ =~= s.subrange(14, 16));
            assert(d.create_date@ =~= s.subrange(16, 18));
            assert(d.access_date@ =~= s.subrange(18, 20));
            assert(d.hi_start@ =~= s.subrange(20, 22));
            assert(d.mod_time@ =~= s.subrange(22, 24));
            assert(d.mod_date@ =~= s.subrange(24, 26));
            assert(d.lo_start@ =~= s.subrange(26, 28));
            assert(d.file_nbytes@ =~= s.subrange(28, 32));
        }
        d
    }

    /// Tests one attribute bit of the record.
    pub fn get_dirent_attr(&self, attr: Fat32DirentAttrs) -> (r: bool)
        ensures
            r == (self.attr & dirent_attr_mask(attr) != 0),
    {
        match attr {
            Fat32DirentAttrs::Fat32ReadOnly => self.attr & 0x01 != 0,
            Fat32DirentAttrs::Fat32Hidden => self.attr & 0x02 != 0,
            Fat32DirentAttrs::Fat32SystemFile => self.attr & 0x04 != 0,
            Fat32DirentAttrs::Fat32VolumeLabel => self.attr & 0x08 != 0,
            Fat32DirentAttrs::Fat32LongFileName => self.attr & 0x0f != 0,
            Fat32DirentAttrs::Fat32Dir => self.attr & 0x10 != 0,
            Fat32DirentAttrs::Fat32Archive => self.attr & 0x20 != 0,
        }
    }

    /// True when the record is a long-filename continuation.
    pub fn dirent_is_lfn(&self) -> (r: bool)
        ensures
            r == is_lfn_attr(self.attr),
    {
        self.get_dirent_attr(Fat32DirentAttrs::Fat32LongFileName)
    }

    /// True when the record is a volume label.
    pub fn dirent_is_vol_label(&self) -> (r: bool)
        ensures
            r == is_vol_label_attr(self.attr),
    {
        self.attr & 0x08 != 0
    }

    /// True when the record is free: never written, or deleted.
    pub fn dirent_is_free(&self) -> (r: bool)
        ensures
            r == is_free_name(self.filename@[0]),
    {
        let x: u8 = self.filename[0];
        x == 0 || x == 0xe5
    }

    /// The starting cluster, assembled as `high << 16 | low`.
    pub fn dirent_cluster_id(&self) -> (r: u32)
        ensures
            r == dirent_cluster(self.hi_start@, self.lo_start@),
    {
        let hi_start: u32 = arr_to_u16(self.hi_start) as u32;
        let lo_start: u32 = arr_to_u16(self.lo_start) as u32;
        0x10000 * hi_start + lo_start
    }

    /// Converts the raw record into its logical view.
    pub fn dirent_convert(&self) -> (d: Dirent)
        ensures
            is_converted(d, *self),
    {
        let mut name: Vec<u8> = Vec::new();
        let mut i: usize = 0;
        while i < 11
            invariant
                i <= 11,
                name@ == self.filename@.subrange(0, i as int),
            decreases 11 - i,
        {
            name.push(self.filename[i]);
            proof {
                assert(self.filename@.subrange(0, i + 1) =~= self.filename@.subrange(
                    0,
                    i as int,
                ).push(self.filename@[i as int]));
            }
            i = i + 1;
        }
        proof {
            assert(name@ =~= self.filename@);
        }
        let mut raw_name: Vec<u8> = Vec::new();
        let mut j: usize = 0;
        while j < name.len()
            invariant
                j <= name@.len(),
                raw_name@ == name@.subrange(0, j as int),
            decreases name@.len() - j,
        {
            raw_name.push(name[j]);
            proof {
                assert(name@.subrange(0, j + 1) =~= name@.subrange(0, j as int).push(
                    name@[j as int],
                ));
            }
            j = j + 1;
        }
        proof {
            assert(raw_name@ =~= name@);
        }
        Dirent {
            name,
            raw_name,
            cluster_id: self.dirent_cluster_id(),
            is_dir_p: self.get_dirent_attr(Fat32DirentAttrs::Fat32Dir),
            nbytes: arr_to_u32(self.file_nbytes),
        }
    }
}

/// A directory listing: the retained entries in on-disk order, and
/// their count.
pub struct Directory {
    /// The retained entries.
    pub dirents: Vec<Dirent>,
    /// The number of retained entries.
    pub n_dirents: u32,
}

/// The five-way classification of a file allocation table entry.
#[derive(PartialEq, Eq, Structural, Clone, Copy, Debug)]
pub enum Fat32ClusterType {
    /// Entry 0x00000000: the cluster is unallocated.
    FreeCluster,
    /// Entry 0x00000001: reserved.
    ReservedCluster,
    /// Entry 0x0FFFFFF7: the cluster is marked bad.
    BadCluster,
    /// Entries 0x0FFFFFF8 to 0x0FFFFFFF: the last cluster of a chain.
    LastCluster,
    /// Entries 0x00000002 to 0x0FFFFFEF: in use; the entry is the next
    /// cluster of the chain.
    UsedCluster,
}

/// The low 28 bits of a table entry; the top 4 bits are ignored.
pub open spec fn mask28(x: u32) -> u32 {
    x & 0x0FFF_FFFF
}

/// Classifies a 32-bit table entry after masking its top 4 bits.
/// The values 0x0FFFFFF0 to 0x0FFFFFF6 are reserved and classify as
/// nothing.
pub open spec fn classify_raw(x: u32) -> Option<Fat32ClusterType> {
    let c = mask28(x);
    if c == 0 {
        Some(Fat32ClusterType::FreeCluster)
    } else if c == 1 {
        Some(Fat32ClusterType::ReservedCluster)
    } else if c == 0x0FFF_FFF7 {
        Some(Fat32ClusterType::BadCluster)
    } else if 0x0FFF_FFF8 <= c && c <= 0x0FFF_FFFF {
        Some(Fat32ClusterType::LastCluster)
    } else if 2 <= c && c <= 0x0FFF_FFEF {
        Some(Fat32ClusterType::UsedCluster)
    } else {
        None
    }
}

/// The table entry stored for `cluster`: the 4 little-endian bytes at
/// byte offset `(cluster & 0x0FFFFFFF) * 4`.
pub open spec fn fat_next(fat: Seq<u8>, cluster: u32) -> u32
    recommends
        4 * mask28(cluster) + 4 <= fat.len(),
{
    le32(fat.subrange(4 * mask28(cluster), 4 * mask28(cluster) + 4)) as u32
}

/// The clusters a chain visits, starting at `cluster` and following
/// `UsedCluster` entries until a terminal classification, spending one
/// unit of `fuel` per step. Yields nothing when a reserved entry value
/// appears, when an entry lies outside the loaded table, or when the
/// fuel runs out, which on a table of `fuel` entries only a cycle can
/// cause.
pub open spec fn chain_walk(fat: Seq<u8>, cluster: u32, fuel: nat) -> Option<Seq<u32>>
    decreases fuel,
{
    match classify_raw(cluster) {
        None => None,
        Some(t) => if t is UsedCluster {
            if fuel == 0 {
                None
            } else if 4 * mask28(cluster) + 4 > fat.len() {
                None
            } else {
                match chain_walk(fat, fat_next(fat, cluster), (fuel - 1) as nat) {
                    None => None,
                    Some(rest) => Some(seq![cluster].add(rest)),
                }
            }
        } else {
            Some(Seq::empty())
        },
    }
}

/// The first sector of cluster `c`'s data, as the masked cluster
/// number places it past `clusters_begin_lba`.
pub open spec fn cluster_lba(v: Fat32Inner, c: u32) -> int
    recommends
        mask28(c) >= 2,
{
    v.clusters_begin_lba + (mask28(c) - 2) * v.sectors_per_cluster
}

/// True when cluster `c`'s first-sector address fits in 32 bits and
/// its sectors lie on the device.
pub open spec fn cluster_read_ok(v: Fat32Inner, c: u32) -> bool {
    &&& cluster_lba(v, c) <= u32::MAX
    &&& sec_range_ok(
        v.sd.inner.card@.len() as int,
        cluster_lba(v, c) as u32,
        v.sectors_per_cluster,
    )
}

/// True when reading cluster `c`'s data can succeed: the device is
/// initialized and the sectors lie on it.
pub open spec fn cluster_readable(v: Fat32Inner, c: u32) -> bool {
    v.sd.inner.initialized && cluster_read_ok(v, c)
}

/// True when reading the whole chain starting at `start` can succeed:
/// the walk terminates and every visited cluster is readable.
pub open spec fn chain_data_ok(v: Fat32Inner, start: u32) -> bool {
    chain_walk(v.fat@, start, v.n_entries as nat) matches Some(ch) && forall|i: int|
        0 <= i < ch.len() ==> cluster_readable(v, ch[i])
}

/// The concatenated bytes of the chain starting at `start`.
pub open spec fn chain_data_bytes(v: Fat32Inner, start: u32) -> Seq<u8>
    recommends
        chain_data_ok(v, start),
{
    chain_bytes(v, chain_walk(v.fat@, start, v.n_entries as nat).unwrap())
}

/// The device bytes of the chain's clusters, concatenated in
/// traversal order.
pub open spec fn chain_bytes(v: Fat32Inner, ch: Seq<u32>) -> Seq<u8>
    decreases ch.len(),
{
    if ch.len() == 0 {
        Seq::empty()
    } else {
        sector_bytes(v.sd.inner.card@, cluster_lba(v, ch[0]) as u32, v.sectors_per_cluster).add(
            chain_bytes(v, ch.drop_first()),
        )
    }
}

/// Appending one cluster to a chain appends that cluster's sectors to
/// the chain's bytes.
pub proof fn lemma_chain_bytes_push(v: Fat32Inner, ch: Seq<u32>, c: u32)
    ensures
        chain_bytes(v, ch.push(c)) == chain_bytes(v, ch).add(
            sector_bytes(v.sd.inner.card@, cluster_lba(v, c) as u32, v.sectors_per_cluster),
        ),
    decreases ch.len(),
{
    let sec = sector_bytes(v.sd.inner.card@, cluster_lba(v, c) as u32, v.sectors_per_cluster);
    if ch.len() == 0 {
        assert(ch.push(c)[0] == c);
        assert(ch.push(c).drop_first() =~= Seq::<u32>::empty());
        assert(chain_bytes(v, ch.push(c)) == sec.add(chain_bytes(v, Seq::<u32>::empty())));
        assert(ch =~= Seq::<u32>::empty());
        assert(sec.add(Seq::<u8>::empty()) =~= Seq::<u8>::empty().add(sec));
    } else {
        let sec0 = sector_bytes(
            v.sd.inner.card@,
            cluster_lba(v, ch[0]) as u32,
            v.sectors_per_cluster,
        );
        assert(ch.push(c)[0] == ch[0]);
        assert(ch.push(c).drop_first() =~= ch.drop_first().push(c));
        assert(chain_bytes(v, ch.push(c)) == sec0.add(chain_bytes(v, ch.drop_first().push(c))));
        lemma_chain_bytes_push(v, ch.drop_first(), c);
        assert(chain_bytes(v, ch.push(c)) == sec0.add(chain_bytes(v, ch.drop_first()).add(sec)));
        assert(chain_bytes(v, ch) == sec0.add(chain_bytes(v, ch.drop_first())));
        assert(sec0.add(chain_bytes(v, ch.drop_first()).add(sec)) =~= sec0.add(
            chain_bytes(v, ch.drop_first()),
        ).add(sec));
    }
}

/// The indices, among the first `n` 32-byte records of `data`, of the
/// records that directory enumeration retains, in order.
pub open spec fn kept_records(data: Seq<u8>, n: nat) -> Seq<int>
    decreases n,
{
    if n == 0 {
        Seq::empty()
    } else {
        let prev = kept_records(data, (n - 1) as nat);
        if keep_rec(data.subrange(32 * (n - 1), 32 * (n - 1) + 32)) {
            prev.push(n - 1)
        } else {
            prev
        }
    }
}

/// Retaining a prefix of the records retains no more than the whole.
pub proof fn lemma_kept_records_monotone(data: Seq<u8>, n1: nat, n2: nat)
    requires
        n1 <= n2,
    ensures
        kept_records(data, n1).len() <= kept_records(data, n2).len(),
    decreases n2,
{
    if n1 < n2 {
        lemma_kept_records_monotone(data, n1, (n2 - 1) as nat);
    }
}

/// True when `d` is the logical conversion of the raw 32-byte record
/// `rec`.
pub open spec fn is_entry_conversion(d: Dirent, rec: Seq<u8>) -> bool
    recommends
        rec.len() == 32,
{
    &&& d.name@ == rec.subrange(0, 11)
    &&& d.raw_name@ == rec.subrange(0, 11)
    &&& d.cluster_id == dirent_cluster(rec.subrange(20, 22), rec.subrange(26, 28))
    &&& d.is_dir_p == is_dir_attr(rec[11])
    &&& d.nbytes == le32(rec.subrange(28, 32))
}

/// The in-memory state of a mounted FAT32 volume: the derived
/// geometry, the decoded metadata sectors, the loaded file allocation
/// table, and the block device it reads.
pub struct Fat32Inner {
    /// First sector of the partition.
    pub lba_start: u32,
    /// First sector of the file allocation table.
    pub fat_begin_lba: u32,
    /// First sector of the data clusters.
    pub clusters_begin_lba: u32,
    /// Sectors per cluster.
    pub sectors_per_cluster: u32,
    /// First cluster of the root directory.
    pub root_dir_first_cluster: u32,
    /// The in-memory copy of the file allocation table; empty until
    /// `fat32_read_fat` loads it.
    pub fat: Vec<u8>,
    /// Number of 4-byte entries in one table copy.
    pub n_entries: u32,
    /// The decoded FSInfo sector.
    pub info: FSInfo,
    /// The decoded boot sector.
    pub boot_sec: BootSector,
    /// The block device the volume reads.
    pub sd: SD,
}

/// True when the derived geometry agrees with the boot sector: the
/// table begins after the reserved area, the data clusters after the
/// table copies, and the entry count is one table copy's sectors at
/// 128 entries each.
pub open spec fn geometry_wf(v: Fat32Inner) -> bool {
    &&& v.fat_begin_lba == v.lba_start + le16(v.boot_sec.reserved_area_nsec@)
    &&& v.clusters_begin_lba == v.fat_begin_lba + v.boot_sec.nfats * le32(v.boot_sec.nsec_per_fat@)
    &&& v.sectors_per_cluster == v.boot_sec.sec_per_cluster
    &&& v.root_dir_first_cluster == le32(v.boot_sec.first_cluster@)
    &&& v.n_entries == 128 * le32(v.boot_sec.nsec_per_fat@)
}

/// True when mounting succeeds on a device holding `card`: the device
/// is initialized, the boot and FSInfo sectors lie on it, and the
/// derived geometry fits in 32 bits.
pub open spec fn mount_ok(card: Seq<u8>, initialized: bool, lba_start: u32) -> bool {
    &&& initialized
    &&& sec_range_ok(card.len() as int, lba_start, 1)
    &&& {
        let bsec = sector_bytes(card, lba_start, 1);
        let isn = le16(bsec.subrange(48, 50));
        let reserved = le16(bsec.subrange(14, 16));
        let spf = le32(bsec.subrange(36, 40));
        &&& lba_start + isn <= u32::MAX
        &&& sec_range_ok(card.len() as int, (lba_start + isn) as u32, 1)
        &&& lba_start + reserved <= u32::MAX
        &&& lba_start + reserved + bsec[16] * spf <= u32::MAX
        &&& 128 * spf <= u32::MAX
    }
}

/// True when the boot sector satisfies every volume invariant this
/// driver checks at mount time.
pub open spec fn volume_id_valid(b: BootSector) -> bool {
    &&& le16(b.bytes_per_sec@) == 512
    &&& b.nfats == 2
    &&& le16(b.sig@) == 0xAA55
    &&& b.sec_per_cluster % 2 == 0
    &&& le16(b.max_files@) == 0
    &&& le16(b.fs_nsec@) == 0
    &&& le16(b.zero@) == 0
    &&& le32(b.nsec_in_fs@) != 0
    &&& le16(b.info_sec_num@) == 1
    &&& le16(b.backup_boot_loc@) == 6
    &&& b.extended_sig == 0x29
}

/// True when every field but the loaded table is unchanged.
pub open spec fn same_but_fat(a: Fat32Inner, b: Fat32Inner) -> bool {
    &&& b.lba_start == a.lba_start
    &&& b.fat_begin_lba == a.fat_begin_lba
    &&& b.clusters_begin_lba == a.clusters_begin_lba
    &&& b.sectors_per_cluster == a.sectors_per_cluster
    &&& b.root_dir_first_cluster == a.root_dir_first_cluster
    &&& b.n_entries == a.n_entries
    &&& b.info == a.info
    &&& b.boot_sec == a.boot_sec
    &&& b.sd == a.sd
}

/// The name of the synthetic root directory entry.
pub open spec fn root_name() -> Seq<u8> {
    seq![0x72u8, 0x6fu8, 0x6fu8, 0x74u8]
}

impl Fat32Inner {
    /// Mounts the volume: reads the boot sector at the partition's
    /// first sector, decodes it field by field, reads the FSInfo
    /// sector it names, and derives the geometry with every sum and
    /// product checked to fit in 32 bits. The table itself is loaded
    /// later by `fat32_read_fat`. Succeeds exactly when the reads lie
    /// on an initialized device and the geometry fits.
    pub fn new(partition: PartitionEntry, sd: SD) -> (r: Result<Self, StorageError>)
        ensures
            r is Ok <==> mount_ok(sd.inner.card@, sd.inner.initialized, partition.lba_start),
            r is Ok ==> {
                let v = r.unwrap();
                let bsec = sector_bytes(sd.inner.card@, partition.lba_start, 1);
                &&& v.lba_start == partition.lba_start
                &&& is_boot_sector_of(v.boot_sec, bsec)
                &&& is_fsinfo_of(
                    v.info,
                    sector_bytes(
                        sd.inner.card@,
                        (partition.lba_start + le16(bsec.subrange(48, 50))) as u32,
                        1,
                    ),
                )
                &&& geometry_wf(v)
                &&& v.fat@ == Seq::<u8>::empty()
                &&& v.sd == sd
            },
            r is Err ==> r == Err::<Self, StorageError>(StorageError::DeviceNotInitialized) || r
                == Err::<Self, StorageError>(StorageError::TransferError) || r == Err::<
                Self,
                StorageError,
            >(StorageError::InvalidVolume),
            !sd.inner.initialized ==> r == Err::<Self, StorageError>(
                StorageError::DeviceNotInitialized,
            ),
    {
        let lba_start = partition.mbr_get_lba_start();
        let boot_sector_vec = match sd.pi_sec_read(lba_start, 1) {
            Ok(v) => v,
            Err(e) => {
                return Err(e);
            },
        };
        let boot_sec = BootSector::new(&boot_sector_vec);
        let if_sec_num = arr_to_u16(boot_sec.info_sec_num) as u32;
        let info_lba64: u64 = lba_start as u64 + if_sec_num as u64;
        if info_lba64 > 0xFFFF_FFFFu64 {
            return Err(StorageError::InvalidVolume);
        }
        let info_sector_vec = match sd.pi_sec_read(info_lba64 as u32, 1) {
            Ok(v) => v,
            Err(e) => {
                return Err(e);
            },
        };
        let info = FSInfo::new(info_sector_vec);
        let reserved = arr_to_u16(boot_sec.reserved_area_nsec) as u32;
        let fat_begin64: u64 = lba_start as u64 + reserved as u64;
        if fat_begin64 > 0xFFFF_FFFFu64 {
            return Err(StorageError::InvalidVolume);
        }
        let nsec_per_fat = arr_to_u32(boot_sec.nsec_per_fat);
        proof {
            assert((boot_sec.nfats as u64) * (nsec_per_fat as u64) <= 255u64 * 0xFFFF_FFFFu64)
                by (nonlinear_arith)
                requires
                    boot_sec.nfats <= 255u8,
                    nsec_per_fat <= 0xFFFF_FFFFu32,
            ;
        }
        let clusters64: u64 = fat_begin64 + (boot_sec.nfats as u64) * (nsec_per_fat as u64);
        if clusters64 > 0xFFFF_FFFFu64 {
            return Err(StorageError::InvalidVolume);
        }
        let entries64: u64 = 128u64 * (nsec_per_fat as u64);
        if entries64 > 0xFFFF_FFFFu64 {
            return Err(StorageError::InvalidVolume);
        }
        let fat: Vec<u8> = Vec::new();
        Ok(
            Self {
                lba_start,
                fat_begin_lba: fat_begin64 as u32,
                clusters_begin_lba: clusters64 as u32,
                sectors_per_cluster: boot_sec.sec_per_cluster as u32,
                root_dir_first_cluster: arr_to_u32(boot_sec.first_cluster),
                fat,
                n_entries: entries64 as u32,
                info,
                boot_sec,
                sd,
            },
        )
    }

    /// The first sector of a data cluster:
    /// `clusters_begin_lba + (cluster - 2) * sectors_per_cluster`.
    /// Clusters 0 and 1 are not addressable data.
    pub fn cluster_to_lba(&self, cluster_num: u32) -> (r: u32)
        requires
            cluster_num >= 2,
            self.clusters_begin_lba + (cluster_num - 2) * self.sectors_per_cluster <= u32::MAX,
        ensures
            r == self.clusters_begin_lba + (cluster_num - 2) * self.sectors_per_cluster,
    {
        self.clusters_begin_lba + (cluster_num - 2) * self.sectors_per_cluster
    }

    /// Classifies a table entry, ignoring its top 4 bits. The reserved
    /// values 0x0FFFFFF0 to 0x0FFFFFF6 are a corruption of the table
    /// and are reported as an error rather than a classification.
    pub fn get_fat_entry_type(&self, x: u32) -> (r: Result<Fat32ClusterType, StorageError>)
        ensures
            classify_raw(x) is Some ==> r == Ok::<Fat32ClusterType, StorageError>(
                classify_raw(x).unwrap(),
            ),
            classify_raw(x) is None ==> r == Err::<Fat32ClusterType, StorageError>(
                StorageError::ClusterChainCorrupt,
            ),
    {
        let cls = x & 0x0FFF_FFFF;
        if cls == 0 {
            Ok(Fat32ClusterType::FreeCluster)
        } else if cls == 1 {
            Ok(Fat32ClusterType::ReservedCluster)
        } else if cls == 0x0FFF_FFF7 {
            Ok(Fat32ClusterType::BadCluster)
        } else if 0x0FFF_FFF8 <= cls && cls <= 0x0FFF_FFFF {
            Ok(Fat32ClusterType::LastCluster)
        } else if 2 <= cls && cls <= 0x0FFF_FFEF {
            Ok(Fat32ClusterType::UsedCluster)
        } else {
            Err(StorageError::ClusterChainCorrupt)
        }
    }

    /// Reads the table entry of `cluster` from the in-memory table:
    /// 4 little-endian bytes at byte offset `(cluster & 0x0FFFFFFF) * 4`.
    pub fn get_next_cluster_val(&self, last_cluster_idx: u32) -> (r: u32)
        requires
            4 * mask28(last_cluster_idx) + 4 <= self.fat@.len(),
        ensures
            r == fat_next(self.fat@, last_cluster_idx),
    {
        let m: u32 = last_cluster_idx & 0x0FFF_FFFF;
        let n: usize = self.fat.len();
        let idx: usize = (m as usize) * 4;
        assert(idx + 4 <= n);
        let val_arr = [self.fat[idx], self.fat[idx + 1], self.fat[idx + 2], self.fat[idx + 3]];
        proof {
            assert(val_arr@ =~= self.fat@.subrange(4 * mask28(last_cluster_idx), 4 * mask28(
                last_cluster_idx,
            ) + 4));
        }
        crate::codec::arr_to_u32_le(val_arr)
    }

    /// Validates the boot sector: 512 bytes per sector, two table
    /// copies, trailing signature 0xAA55, even sectors-per-cluster,
    /// the legacy 16-bit fields zero, a non-zero total sector count,
    /// FSInfo at sector 1, the backup boot sector at sector 6, and
    /// extended signature 0x29. Succeeds exactly when all hold.
    pub fn fat32_volume_id_check(&self) -> (r: Result<(), StorageError>)
        ensures
            r is Ok <==> volume_id_valid(self.boot_sec),
            r is Err ==> r == Err::<(), StorageError>(StorageError::InvalidVolume),
    {
        if arr_to_u16(self.boot_sec.bytes_per_sec) != 512 {
            return Err(StorageError::InvalidVolume);
        }
        if self.boot_sec.nfats != 2 {
            return Err(StorageError::InvalidVolume);
        }
        if arr_to_u16(self.boot_sec.sig) != 0xAA55 {
            return Err(StorageError::InvalidVolume);
        }
        if self.boot_sec.sec_per_cluster % 2 != 0 {
            return Err(StorageError::InvalidVolume);
        }
        if arr_to_u16(self.boot_sec.max_files) != 0 {
            return Err(StorageError::InvalidVolume);
        }
        if arr_to_u16(self.boot_sec.fs_nsec) != 0 {
            return Err(StorageError::InvalidVolume);
        }
        if arr_to_u16(self.boot_sec.zero) != 0 {
            return Err(StorageError::InvalidVolume);
        }
        if arr_to_u32(self.boot_sec.nsec_in_fs) == 0 {
            return Err(StorageError::InvalidVolume);
        }
        if arr_to_u16(self.boot_sec.info_sec_num) != 1 {
            return Err(StorageError::InvalidVolume);
        }
        if arr_to_u16(self.boot_sec.backup_boot_loc) != 6 {
            return Err(StorageError::InvalidVolume);
        }
        if self.boot_sec.extended_sig != 0x29 {
            return Err(StorageError::InvalidVolume);
        }
        Ok(())
    }

    /// Loads one copy of the file allocation table into memory:
    /// `nsec_per_fat` sectors starting at `fat_begin_lba`. On failure
    /// the volume, including any table loaded earlier, is unchanged.
    pub fn fat32_read_fat(&mut self) -> (r: Result<(), StorageError>)
        ensures
            r is Ok <==> old(self).sd.inner.initialized && sec_range_ok(
                old(self).sd.inner.card@.len() as int,
                old(self).fat_begin_lba,
                le32(old(self).boot_sec.nsec_per_fat@) as u32,
            ),
            r is Ok ==> final(self).fat@ == sector_bytes(
                old(self).sd.inner.card@,
                old(self).fat_begin_lba,
                le32(old(self).boot_sec.nsec_per_fat@) as u32,
            ),
            same_but_fat(*old(self), *final(self)),
            r is Err ==> *final(self) == *old(self) && (r == Err::<(), StorageError>(
                StorageError::DeviceNotInitialized,
            ) || r == Err::<(), StorageError>(StorageError::TransferError)),
    {
        let nsec = arr_to_u32(self.boot_sec.nsec_per_fat);
        let fat = self.sd.pi_sec_read(self.fat_begin_lba, nsec);
        match fat {
            Ok(fat) => {
                self.fat = fat;
                Ok(())
            },
            Err(e) => Err(e),
        }
    }

    /// Walks the chain starting at `start_cluster`, counting the
    /// clusters visited before a terminal classification. A chain
    /// starting on a free, bad, reserved or last cluster has length 0.
    /// Fails when a reserved entry value appears, when an entry points
    /// outside the loaded table, or when the walk closes a cycle.
    pub fn get_cluster_chain_length(&self, start_cluster: u32) -> (r: Result<u32, StorageError>)
        ensures
            r is Ok <==> chain_walk(self.fat@, start_cluster, self.n_entries as nat) is Some,
            r is Ok ==> r.unwrap() == chain_walk(
                self.fat@,
                start_cluster,
                self.n_entries as nat,
            ).unwrap().len(),
            r is Err ==> r == Err::<u32, StorageError>(StorageError::ClusterChainCorrupt),
    {
        let ghost full = chain_walk(self.fat@, start_cluster, self.n_entries as nat);
        let mut chain_length: u32 = 0;
        let mut cluster: u32 = start_cluster;
        let mut fuel: u32 = self.n_entries;
        loop
            invariant
                fuel <= self.n_entries,
                chain_length == self.n_entries - fuel,
                full == chain_walk(self.fat@, start_cluster, self.n_entries as nat),
                match chain_walk(self.fat@, cluster, fuel as nat) {
                    None => full is None,
                    Some(rest) => full is Some && full.unwrap().len() == chain_length + rest.len(),
                },
            decreases fuel,
        {
            let t = match self.get_fat_entry_type(cluster) {
                Ok(t) => t,
                Err(_) => {
                    return Err(StorageError::ClusterChainCorrupt);
                },
            };
            if t != Fat32ClusterType::UsedCluster {
                proof {
                    assert(chain_walk(self.fat@, cluster, fuel as nat) == Some(Seq::<u32>::empty()));
                }
                return Ok(chain_length);
            }
            if fuel == 0 {
                return Err(StorageError::ClusterChainCorrupt);
            }
            let m: u32 = cluster & 0x0FFF_FFFF;
            let need: u64 = (m as u64) * 4 + 4;
            if need > self.fat.len() as u64 {
                return Err(StorageError::ClusterChainCorrupt);
            }
            let next = self.get_next_cluster_val(cluster);
            proof {
                let rest = chain_walk(self.fat@, cluster, fuel as nat);
                let rest_next = chain_walk(self.fat@, next, (fuel - 1) as nat);
                assert(rest == match rest_next {
                    None => None::<Seq<u32>>,
                    Some(tail) => Some(seq![cluster].add(tail)),
                });
            }
            cluster = next;
            chain_length = chain_length + 1;
            fuel = fuel - 1;
        }
    }

    /// Walks the chain starting at `start_cluster` and concatenates
    /// each visited cluster's sectors, read from the device, in
    /// traversal order. Succeeds exactly when the walk does and every
    /// visited cluster's sectors lie on the initialized device.
    pub fn get_cluster_chain_data(&self, start_cluster: u32) -> (r: Result<Vec<u8>, StorageError>)
        ensures
            r is Ok <==> chain_data_ok(*self, start_cluster),
            r is Ok ==> r.unwrap()@ == chain_data_bytes(*self, start_cluster),
            r is Err ==> r == Err::<Vec<u8>, StorageError>(StorageError::ClusterChainCorrupt) || r
                == Err::<Vec<u8>, StorageError>(StorageError::DeviceNotInitialized) || r == Err::<
                Vec<u8>,
                StorageError,
            >(StorageError::TransferError),
    {
        let ghost full = chain_walk(self.fat@, start_cluster, self.n_entries as nat);
        let mut data: Vec<u8> = Vec::new();
        let ghost mut visited: Seq<u32> = Seq::empty();
        let mut cluster: u32 = start_cluster;
        let mut fuel: u32 = self.n_entries;
        let read_size = self.sectors_per_cluster;
        proof {
            assert(data@ =~= chain_bytes(*self, visited));
        }
        loop
            invariant
                fuel <= self.n_entries,
                visited.len() == self.n_entries - fuel,
                read_size == self.sectors_per_cluster,
                full == chain_walk(self.fat@, start_cluster, self.n_entries as nat),
                forall|i: int| 0 <= i < visited.len() ==> cluster_readable(*self, visited[i]),
                data@ == chain_bytes(*self, visited),
                match chain_walk(self.fat@, cluster, fuel as nat) {
                    None => full is None,
                    Some(rest) => full is Some && full.unwrap() == visited.add(rest),
                },
            decreases fuel,
        {
            let t = match self.get_fat_entry_type(cluster) {
                Ok(t) => t,
                Err(_) => {
                    return Err(StorageError::ClusterChainCorrupt);
                },
            };
            if t != Fat32ClusterType::UsedCluster {
                proof {
                    assert(chain_walk(self.fat@, cluster, fuel as nat) == Some(Seq::<u32>::empty()));
                    assert(full.unwrap() =~= visited);
                }
                return Ok(data);
            }
            if fuel == 0 {
                return Err(StorageError::ClusterChainCorrupt);
            }
            let m: u32 = cluster & 0x0FFF_FFFF;
            let need: u64 = (m as u64) * 4 + 4;
            if need > self.fat.len() as u64 {
                return Err(StorageError::ClusterChainCorrupt);
            }
            let next = self.get_next_cluster_val(cluster);
            proof {
                let rest = chain_walk(self.fat@, cluster, fuel as nat);
                let rest_next = chain_walk(self.fat@, next, (fuel - 1) as nat);
                assert(rest == match rest_next {
                    None => None::<Seq<u32>>,
                    Some(tail) => Some(seq![cluster].add(tail)),
                });
                if rest_next is Some {
                    assert(full is Some && full.unwrap() == visited.add(
                        seq![cluster].add(rest_next.unwrap()),
                    ));
                    assert(full.unwrap()[visited.len() as int] == cluster);
                }
            }
            proof {
                assert(m == mask28(cluster));
                assert(2 <= m && m <= 0x0FFF_FFEFu32);
                assert(((m - 2) as u64) * (read_size as u64) <= 0x0FFF_FFEDu64 * 0xFFFF_FFFFu64)
                    by (nonlinear_arith)
                    requires
                        2 <= m <= 0x0FFF_FFEFu32,
                        read_size <= 0xFFFF_FFFFu32,
                ;
            }
            let lba64: u64 = self.clusters_begin_lba as u64 + ((m - 2) as u64) * (read_size as u64);
            proof {
                assert(lba64 == cluster_lba(*self, cluster));
            }
            if lba64 > 0xFFFF_FFFFu64 {
                proof {
                    assert(!cluster_read_ok(*self, cluster));
                }
                return Err(StorageError::TransferError);
            }
            let lba: u32 = self.cluster_to_lba(m);
            let new_data = match self.sd.pi_sec_read(lba, read_size) {
                Ok(v) => v,
                Err(e) => {
                    proof {
                        assert(!cluster_readable(*self, cluster));
                    }
                    return Err(e);
                },
            };
            let mut k: usize = 0;
            let n_new: usize = new_data.len();
            while k < n_new
                invariant
                    k <= n_new,
                    n_new == new_data@.len(),
                    data@ == chain_bytes(*self, visited).add(new_data@.subrange(0, k as int)),
                decreases n_new - k,
            {
                data.push(new_data[k]);
                proof {
                    assert(new_data@.subrange(0, k + 1) =~= new_data@.subrange(0, k as int).push(
                        new_data@[k as int],
                    ));
                    assert(chain_bytes(*self, visited).add(new_data@.subrange(0, k + 1))
                        =~= chain_bytes(*self, visited).add(new_data@.subrange(0, k as int)).push(
                        new_data@[k as int],
                    ));
                }
                k = k + 1;
            }
            proof {
                assert(new_data@.subrange(0, new_data@.len() as int) =~= new_data@);
                lemma_chain_bytes_push(*self, visited, cluster);
                assert(data@ == chain_bytes(*self, visited.push(cluster)));
                visited = visited.push(cluster);
                assert(forall|i: int|
                    0 <= i < visited.len() ==> cluster_readable(*self, visited[i]));
            }
            cluster = next;
            fuel = fuel - 1;
        }
    }

    /// Reads the chain starting at `start_cluster` and slices its
    /// bytes into consecutive 32-byte directory records.
    pub fn get_dirents(&self, start_cluster: u32) -> (r: Result<Vec<Fat32Dirent>, StorageError>)
        ensures
            r is Ok <==> chain_data_ok(*self, start_cluster),
            r is Ok ==> {
                let data = chain_data_bytes(*self, start_cluster);
                let v = r.unwrap()@;
                &&& v.len() == data.len() / 32
                &&& forall|k: int|
                    0 <= k < v.len() ==> is_dirent_of(v[k], data.subrange(32 * k, 32 * k + 32))
            },
            r is Err ==> r == Err::<Vec<Fat32Dirent>, StorageError>(
                StorageError::ClusterChainCorrupt,
            ) || r == Err::<Vec<Fat32Dirent>, StorageError>(StorageError::DeviceNotInitialized)
                || r == Err::<Vec<Fat32Dirent>, StorageError>(StorageError::TransferError),
    {
        let cluster_chain_data = match self.get_cluster_chain_data(start_cluster) {
            Ok(d) => d,
            Err(e) => {
                return Err(e);
            },
        };
        let n: usize = cluster_chain_data.len();
        let total: usize = n / 32;
        let mut dirent_vec: Vec<Fat32Dirent> = Vec::new();
        let mut k: usize = 0;
        while k < total
            invariant
                k <= total,
                n == cluster_chain_data@.len(),
                total == cluster_chain_data@.len() / 32,
                dirent_vec@.len() == k,
                forall|j: int|
                    0 <= j < k ==> is_dirent_of(
                        dirent_vec@[j],
                        cluster_chain_data@.subrange(32 * j, 32 * j + 32),
                    ),
            decreases total - k,
        {
            proof {
                assert(32 * (total as int) <= cluster_chain_data@.len());
                assert(32 * (k as int) + 32 <= 32 * (total as int));
            }
            let dir_ent = Fat32Dirent::new(&cluster_chain_data, k * 32);
            dirent_vec.push(dir_ent);
            k = k + 1;
        }
        Ok(dirent_vec)
    }

    /// Enumerates the directory whose data starts at `dir_ent`'s
    /// cluster: reads the chain, slices it into records, drops
    /// long-filename continuations, free or deleted records and volume
    /// labels, and converts the remainder in on-disk order.
    pub fn read_dir(&self, dir_ent: Dirent) -> (r: Result<Directory, StorageError>)
        ensures
            r is Ok <==> chain_data_ok(*self, dir_ent.cluster_id) && kept_records(
                chain_data_bytes(*self, dir_ent.cluster_id),
                (chain_data_bytes(*self, dir_ent.cluster_id).len() / 32) as nat,
            ).len() <= u32::MAX,
            r is Ok ==> {
                let data = chain_data_bytes(*self, dir_ent.cluster_id);
                let kept = kept_records(data, (data.len() / 32) as nat);
                let dir = r.unwrap();
                &&& dir.n_dirents == dir.dirents@.len()
                &&& dir.dirents@.len() == kept.len()
                &&& forall|j: int|
                    0 <= j < kept.len() ==> is_entry_conversion(
                        dir.dirents@[j],
                        data.subrange(32 * kept[j], 32 * kept[j] + 32),
                    )
            },
            r is Err ==> r == Err::<Directory, StorageError>(StorageError::ClusterChainCorrupt)
                || r == Err::<Directory, StorageError>(StorageError::DeviceNotInitialized) || r
                == Err::<Directory, StorageError>(StorageError::TransferError) || r == Err::<
                Directory,
                StorageError,
            >(StorageError::BufferSizeMismatch),
    {
        let fat32_dirent_vec = match self.get_dirents(dir_ent.cluster_id) {
            Ok(v) => v,
            Err(e) => {
                return Err(e);
            },
        };
        let ghost data = chain_data_bytes(*self, dir_ent.cluster_id);
        let ghost n_records = (data.len() / 32) as nat;
        let total: usize = fat32_dirent_vec.len();
        let mut dirents: Vec<Dirent> = Vec::new();
        let mut num_valid_dirents: u32 = 0;
        let mut i: usize = 0;
        while i < total
            invariant
                i <= total,
                total == fat32_dirent_vec@.len(),
                total == n_records,
                data == chain_data_bytes(*self, dir_ent.cluster_id),
                n_records == (data.len() / 32) as nat,
                chain_data_ok(*self, dir_ent.cluster_id),
                forall|k: int|
                    0 <= k < total ==> is_dirent_of(
                        fat32_dirent_vec@[k],
                        data.subrange(32 * k, 32 * k + 32),
                    ),
                num_valid_dirents == dirents@.len(),
                dirents@.len() == kept_records(data, i as nat).len(),
                forall|j: int|
                    0 <= j < dirents@.len() ==> is_entry_conversion(
                        dirents@[j],
                        data.subrange(
                            32 * kept_records(data, i as nat)[j],
                            32 * kept_records(data, i as nat)[j] + 32,
                        ),
                    ),
            decreases total - i,
        {
            let this_entry = &fat32_dirent_vec[i];
            let ghost rec = data.subrange(32 * (i as int), 32 * (i as int) + 32);
            let skip = this_entry.dirent_is_lfn() || this_entry.dirent_is_free()
                || this_entry.dirent_is_vol_label();
            proof {
                assert(this_entry.attr == rec[11]);
                assert(this_entry.filename@[0] == rec[0]);
                assert(skip == !keep_rec(rec));
                assert(kept_records(data, (i + 1) as nat) == if keep_rec(rec) {
                    kept_records(data, i as nat).push(i as int)
                } else {
                    kept_records(data, i as nat)
                });
            }
            if !skip {
                if num_valid_dirents == u32::MAX {
                    proof {
                        lemma_kept_records_monotone(data, (i + 1) as nat, n_records);
                    }
                    return Err(StorageError::BufferSizeMismatch);
                }
                num_valid_dirents = num_valid_dirents + 1;
                dirents.push(this_entry.dirent_convert());
                proof {
                    let kept = kept_records(data, (i + 1) as nat);
                    assert(kept[kept.len() - 1] == i as int);
                }
            }
            i = i + 1;
        }
        Ok(Directory { dirents, n_dirents: num_valid_dirents })
    }

    /// The synthetic entry naming the root directory: cluster
    /// `root_dir_first_cluster`, size 0, marked a directory.
    pub fn fat32_get_root(&self) -> (d: Dirent)
        ensures
            d.name@ == root_name(),
            d.raw_name@ == root_name(),
            d.cluster_id == self.root_dir_first_cluster,
            d.is_dir_p,
            d.nbytes == 0,
    {
        let mut name: Vec<u8> = Vec::new();
        name.push(0x72);
        name.push(0x6f);
        name.push(0x6f);
        name.push(0x74);
        let mut raw_name: Vec<u8> = Vec::new();
        raw_name.push(0x72);
        raw_name.push(0x6f);
        raw_name.push(0x6f);
        raw_name.push(0x74);
        proof {
            assert(name@ =~= root_name());
            assert(raw_name@ =~= root_name());
        }
        Dirent {
            name,
            raw_name,
            cluster_id: self.root_dir_first_cluster,
            is_dir_p: true,
            nbytes: 0,
        }
    }
}

/// The FAT32 volume driver exposed to the rest of the kernel.
pub struct Fat32 {
    /// The mounted volume's state.
    pub inner: Fat32Inner,
}

impl Fat32 {
    /// Mounts the volume on `partition`, taking ownership of the
    /// block device. Succeeds exactly when the boot and FSInfo reads
    /// lie on an initialized device and the derived geometry fits in
    /// 32 bits.
    pub fn new(partition: PartitionEntry, sd: SD) -> (r: Result<Self, StorageError>)
        ensures
            r is Ok <==> mount_ok(sd.inner.card@, sd.inner.initialized, partition.lba_start),
            r is Ok ==> {
                let v = r.unwrap().inner;
                let bsec = sector_bytes(sd.inner.card@, partition.lba_start, 1);
                &&& v.lba_start == partition.lba_start
                &&& is_boot_sector_of(v.boot_sec, bsec)
                &&& is_fsinfo_of(
                    v.info,
                    sector_bytes(
                        sd.inner.card@,
                        (partition.lba_start + le16(bsec.subrange(48, 50))) as u32,
                        1,
                    ),
                )
                &&& geometry_wf(v)
                &&& v.fat@ == Seq::<u8>::empty()
                &&& v.sd == sd
            },
            r is Err ==> r == Err::<Self, StorageError>(StorageError::DeviceNotInitialized) || r
                == Err::<Self, StorageError>(StorageError::TransferError) || r == Err::<
                Self,
                StorageError,
            >(StorageError::InvalidVolume),
            !sd.inner.initialized ==> r == Err::<Self, StorageError>(
                StorageError::DeviceNotInitialized,
            ),
    {
        match Fat32Inner::new(partition, sd) {
            Ok(inner) => Ok(Self { inner }),
            Err(e) => Err(e),
        }
    }

    /// Validates the boot sector; succeeds exactly when every volume
    /// invariant holds.
    pub fn fat32_vol_id_check(&self) -> (r: Result<(), StorageError>)
        ensures
            r is Ok <==> volume_id_valid(self.inner.boot_sec),
            r is Err ==> r == Err::<(), StorageError>(StorageError::InvalidVolume),
    {
        self.inner.fat32_volume_id_check()
    }

    /// Loads one copy of the file allocation table into memory. On
    /// failure the volume is unchanged.
    pub fn fat32_read_fat(&mut self) -> (r: Result<(), StorageError>)
        ensures
            r is Ok <==> old(self).inner.sd.inner.initialized && sec_range_ok(
                old(self).inner.sd.inner.card@.len() as int,
                old(self).inner.fat_begin_lba,
                le32(old(self).inner.boot_sec.nsec_per_fat@) as u32,
            ),
            r is Ok ==> final(self).inner.fat@ == sector_bytes(
                old(self).inner.sd.inner.card@,
                old(self).inner.fat_begin_lba,
                le32(old(self).inner.boot_sec.nsec_per_fat@) as u32,
            ),
            same_but_fat(old(self).inner, final(self).inner),
            r is Err ==> *final(self) == *old(self) && (r == Err::<(), StorageError>(
                StorageError::DeviceNotInitialized,
            ) || r == Err::<(), StorageError>(StorageError::TransferError)),
    {
        self.inner.fat32_read_fat()
    }

    /// The synthetic entry naming the root directory.
    pub fn fat32_get_root(&self) -> (d: Dirent)
        ensures
            d.name@ == root_name(),
            d.raw_name@ == root_name(),
            d.cluster_id == self.inner.root_dir_first_cluster,
            d.is_dir_p,
            d.nbytes == 0,
    {
        self.inner.fat32_get_root()
    }

    /// Enumerates the directory whose data starts at `dirent`'s
    /// cluster, dropping long-filename continuations, free or deleted
    /// records, and volume labels.
    pub fn fat32_read_dir(&self, dirent: Dirent) -> (r: Result<Directory, StorageError>)
        ensures
            r is Ok <==> chain_data_ok(self.inner, dirent.cluster_id) && kept_records(
                chain_data_bytes(self.inner, dirent.cluster_id),
                (chain_data_bytes(self.inner, dirent.cluster_id).len() / 32) as nat,
            ).len() <= u32::MAX,
            r is Ok ==> {
                let data = chain_data_bytes(self.inner, dirent.cluster_id);
                let kept = kept_records(data, (data.len() / 32) as nat);
                let dir = r.unwrap();
                &&& dir.n_dirents == dir.dirents@.len()
                &&& dir.dirents@.len() == kept.len()
                &&& forall|j: int|
                    0 <= j < kept.len() ==> is_entry_conversion(
                        dir.dirents@[j],
                        data.subrange(32 * kept[j], 32 * kept[j] + 32),
                    )
            },
            r is Err ==> r == Err::<Directory, StorageError>(StorageError::ClusterChainCorrupt)
                || r == Err::<Directory, StorageError>(StorageError::DeviceNotInitialized) || r
                == Err::<Directory, StorageError>(StorageError::TransferError) || r == Err::<
                Directory,
                StorageError,
            >(StorageError::BufferSizeMismatch),
    {
        self.inner.read_dir(dirent)
    }
}

} // verus!
