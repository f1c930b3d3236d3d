//! Sector-addressed block device.
//!
//! Presents a minimal, protocol-agnostic sector interface: initialize the
//! card, then read runs of consecutive 512-byte sectors by logical block
//! address. The card's contents are held as one byte per device byte, in
//! device order, and are read-only through this interface.

use vstd::prelude::*;

use crate::error::StorageError;

verus! {

/// True when a read of `nsec` sectors starting at sector `lba` lies
/// within a device of `len` bytes.
pub open spec fn sec_range_ok(len: int, lba: u32, nsec: u32) -> bool {
    (lba + nsec) * 512 <= len
}

/// The bytes of `nsec` consecutive sectors starting at sector `lba`.
pub open spec fn sector_bytes(card: Seq<u8>, lba: u32, nsec: u32) -> Seq<u8>
    recommends
        sec_range_ok(card.len() as int, lba, nsec),
{
    card.subrange(lba * 512, (lba + nsec) * 512)
}

/// State of the block device: the card's contents and whether the
/// bring-up sequence has run.
pub struct SDInner {
    /// The card's contents, one byte per device byte.
    pub card: Vec<u8>,
    /// Whether `emmc_init` has run.
    pub initialized: bool,
}

impl SDInner {
    /// Makes a device over the given card contents, not yet initialized.
    pub fn new(card: Vec<u8>) -> (s: Self)
        ensures
            s.card@ == card@,
            !s.initialized,
    {
        Self { card, initialized: false }
    }

    /// Brings the card up; afterwards reads are served.
    pub fn emmc_init(&mut self) -> (r: Result<(), StorageError>)
        ensures
            final(self).initialized,
            final(self).card == old(self).card,
            r is Ok,
    {
        self.initialized = true;
        Ok(())
    }

    /// Reads `nsec` consecutive sectors starting at sector `lba`.
    ///
    /// Succeeds exactly when the device is initialized and the run lies
    /// within the card; the result then holds `nsec * 512` bytes.
    pub fn emmc_read_sectors(&self, lba: u32, nsec: u32) -> (r: Result<Vec<u8>, StorageError>)
        ensures
            r is Ok <==> self.initialized && sec_range_ok(self.card@.len() as int, lba, nsec),
            r is Ok ==> r.unwrap()@ == sector_bytes(self.card@, lba, nsec),
            !self.initialized ==> r == Err::<Vec<u8>, StorageError>(
                StorageError::DeviceNotInitialized,
            ),
            self.initialized && !sec_range_ok(self.card@.len() as int, lba, nsec) ==> r
                == Err::<Vec<u8>, StorageError>(StorageError::TransferError),
    {
        if !self.initialized {
            return Err(StorageError::DeviceNotInitialized);
        }
        let end64: u64 = (lba as u64 + nsec as u64) * 512;
        if end64 > self.card.len() as u64 {
            return Err(StorageError::TransferError);
        }
        let end: usize = end64 as usize;
        let start: usize = (lba as usize) * 512;
        let mut out: Vec<u8> = Vec::new();
        let mut i: usize = start;
        while i < end
            invariant
                start <= i <= end,
                end <= self.card@.len(),
                out@ == self.card@.subrange(start as int, i as int),
            decreases end - i,
        {
            out.push(self.card[i]);
            proof {
                assert(self.card@.subrange(start as int, i + 1) =~= self.card@.subrange(
                    start as int,
                    i as int,
                ).push(self.card@[i as int]));
            }
            i = i + 1;
        }
        proof {
            assert(out@ == sector_bytes(self.card@, lba, nsec));
        }
        Ok(out)
    }
}

/// The block device exposed to the rest of the stack.
pub struct SD {
    /// The device state.
    pub inner: SDInner,
}

impl SD {
    /// Makes a device over the given card contents, not yet initialized.
    pub fn new(card: Vec<u8>) -> (s: Self)
        ensures
            s.inner.card@ == card@,
            !s.inner.initialized,
    {
        Self { inner: SDInner::new(card) }
    }

    /// Initializes the card reader.
    pub fn pi_sd_init(&mut self) -> (r: Result<(), StorageError>)
        ensures
            final(self).inner.initialized,
            final(self).inner.card == old(self).inner.card,
            r is Ok,
    {
        self.inner.emmc_init()
    }

    /// Reads `nsec` sectors starting at sector `lba` and returns the
    /// buffer, of `nsec * 512` bytes on success.
    pub fn pi_sec_read(&self, lba: u32, nsec: u32) -> (r: Result<Vec<u8>, StorageError>)
        ensures
            r is Ok <==> self.inner.initialized && sec_range_ok(
                self.inner.card@.len() as int,
                lba,
                nsec,
            ),
            r is Ok ==> r.unwrap()@ == sector_bytes(self.inner.card@, lba, nsec),
            !self.inner.initialized ==> r == Err::<Vec<u8>, StorageError>(
                StorageError::DeviceNotInitialized,
            ),
            self.inner.initialized && !sec_range_ok(self.inner.card@.len() as int, lba, nsec) ==> r
                == Err::<Vec<u8>, StorageError>(StorageError::TransferError),
    {
        self.inner.emmc_read_sectors(lba, nsec)
    }
}

} // verus!
