//! Safe, typed access to the v1 trusted-computing (TCG) protocol of a
//! pre-boot firmware environment: the capability/status query and the walk
//! over the firmware-resident TPM measurement log.
//!
//! The measurement log is a packed sequence of variable-length records in
//! firmware-owned memory. The library models that memory as a borrowed byte
//! slice and proves that record decoding and the log walk return exactly the
//! records that the bytes describe. The single firmware call itself, and the
//! raw-pointer plumbing around it, live outside the library; they hand in the
//! call's plain outputs (a status code, the capability bytes, the log region).

use vstd::prelude::*;

pub mod capability;
pub mod log;
pub mod record;
pub mod status;
pub mod tcg;

verus! {

/// 20-byte SHA-1 digest, the only digest kind this protocol version reports.
pub type Sha1Digest = [u8; 20];

/// Index of a platform configuration register (PCR): which trusted-platform
/// register an event's measurement applies to.
#[derive(Clone, Copy, Debug, PartialEq, Eq, Structural)]
pub struct PcrIndex(pub u32);

/// Type of an event-log entry, indicating what kind of data the entry's
/// event data holds. The value is carried verbatim from the log.
#[derive(Clone, Copy, Debug, PartialEq, Eq, Structural)]
pub struct EventType(pub u32);

impl EventType {
    /// Measurement of the core root of trust's version string.
    pub fn crtm_version() -> (event_type: EventType)
        ensures
            event_type.0 == 0x8,
    {
        EventType(0x8)
    }

    /// Measurement of a firmware blob embedded in the platform.
    pub fn efi_platform_firmware_blob() -> (event_type: EventType)
        ensures
            event_type.0 == 0x8000_0008,
    {
        EventType(0x8000_0008)
    }
}

/// Hash algorithms a capability reports as supported, as a bitmap carried
/// verbatim from the firmware; only the SHA-1 bit is meaningful here. An
/// out-of-specification bitmap value is passed through, not rejected.
#[derive(Clone, Copy, Debug, PartialEq, Eq, Structural)]
pub struct HashAlgorithm(pub u32);

impl HashAlgorithm {
    /// The bitmap that reports SHA-1 support and nothing else, the value
    /// this protocol version is expected to report.
    pub fn sha1() -> (algorithm: HashAlgorithm)
        ensures
            algorithm.0 == 0x1,
    {
        HashAlgorithm(0x1)
    }
}

} // verus!
