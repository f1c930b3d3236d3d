//! Storage stack for a FAT32 volume behind an MBR partition table.
//!
//! The stack is layered: a sector-addressed block device, a master boot
//! record reader, the SD command descriptor table, and a FAT32 volume
//! driver that decodes the boot sector, classifies file allocation table
//! entries, walks cluster chains and enumerates directories.

pub mod codec;
pub mod emmc;
pub mod error;
pub mod fat32;
pub mod mbr;
pub mod sd;
