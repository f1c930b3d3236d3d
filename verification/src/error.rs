//! Error taxonomy of the storage stack.

use vstd::prelude::*;

verus! {

/// Every failure a layer of the storage stack can report.
///
/// Transfer-level errors come from the block device; the structural
/// errors come from validating the partition table, the boot sector,
/// or a cluster chain.
#[derive(Clone, Copy, Debug, PartialEq, Eq, Structural)]
pub enum StorageError {
    /// No card is present in the slot.
    DeviceNotPresent,
    /// A read was issued before `initialize` succeeded.
    DeviceNotInitialized,
    /// The transfer did not complete in time.
    TransferTimeout,
    /// The transfer failed, for instance because it reached past the
    /// end of the device.
    TransferError,
    /// The master boot record breaks an invariant: bad signature,
    /// wrong partition type, or an unexpected non-empty slot.
    InvalidPartitionTable,
    /// The boot sector breaks a BIOS parameter block invariant.
    InvalidVolume,
    /// A cluster chain left the loaded table or closed a cycle.
    ClusterChainCorrupt,
    /// A buffer did not have the expected size.
    BufferSizeMismatch,
}

} // verus!
