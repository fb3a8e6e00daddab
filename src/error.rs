//! Result codes of the storage protocol.
use vstd::prelude::*;

verus! {

/// Successful outcomes reported by the storage engine.
#[derive(Clone, Copy, Debug, PartialEq, Eq, Structural)]
pub enum SuccessCode {
    /// The operation is complete and nothing was changed in flash.
    Complete,
    /// All changes have been written to flash.
    Written,
    /// A write has been queued.
    Queued,
}

/// Failures of the storage service, of the flash adapter and of the engine.
#[derive(Clone, Copy, Debug, PartialEq, Eq, Structural)]
pub enum ErrorCode {
    /// Flash holds a header of an unsupported format version.
    UnsupportedVersion,
    /// Stored data is corrupt; for the service, a stored value that is not UTF-8 text.
    CorruptData,
    /// A stored object's checksum does not match.
    InvalidCheckSum,
    /// No live entry has the requested key.
    KeyNotFound,
    /// An entry with the same hashed key is already present.
    KeyAlreadyExists,
    /// The region that the key maps to has no room left.
    RegionFull,
    /// The flash has no room left.
    FlashFull,
    /// A hardware read failed.
    ReadFail,
    /// A hardware page program failed.
    WriteFail,
    /// A hardware sector erase failed.
    EraseFail,
    /// The object is too large to be stored.
    ObjectTooLarge,
    /// A supplied buffer is too small; carries the size that was needed.
    BufferTooSmall(usize),
    /// A hardware read is still in progress.
    ReadNotReady(usize),
    /// A hardware write is still in progress.
    WriteNotReady(usize),
    /// A hardware erase is still in progress.
    EraseNotReady(usize),
}

} // verus!
