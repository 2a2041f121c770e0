//! Fixed-layout descriptor types reported by the capability query: version
//! information and the protocol's boot-service capability record.
//!
//! Both are byte-exact images of firmware output parameters. Decoding reads
//! the fields in place and exposes typed accessors; no validation is
//! performed beyond the fixed sizes, matching the protocol's permissive
//! treatment of out-of-specification values.

use vstd::prelude::*;

use crate::HashAlgorithm;

verus! {

/// Byte size of the capability structure's firmware image.
pub const CAPABILITY_SIZE: usize = 12;

/// Version information: 4 bytes, in order `major`, `minor`, `rev_major`,
/// `rev_minor`. The two revision fields are undocumented by the platform
/// specification and are preserved for layout fidelity only.
#[derive(Clone, Copy, Debug, PartialEq, Eq, PartialOrd, Ord, Structural)]
pub struct Version {
    /// Major version.
    pub major: u8,
    /// Minor version.
    pub minor: u8,
    /// Undocumented revision field, carried verbatim.
    pub rev_major: u8,
    /// Undocumented revision field, carried verbatim.
    pub rev_minor: u8,
}

/// The version whose 4 bytes start at `off` in `bytes`.
pub open spec fn spec_version_at(bytes: Seq<u8>, off: int) -> Version {
    Version {
        major: bytes[off],
        minor: bytes[off + 1],
        rev_major: bytes[off + 2],
        rev_minor: bytes[off + 3],
    }
}

/// Information about the protocol and the TPM device, reported once per
/// capability query.
///
/// Its firmware image is 12 bytes with no padding: a structure-size byte,
/// two 4-byte [`Version`]s (structure version, then protocol-spec version),
/// a hash-algorithm bitmap byte, and two boolean-as-byte flags (TPM present,
/// TPM deactivated). Ordering and equality are byte-lexicographic over the
/// fields, for testability, and carry no further meaning.
#[derive(Clone, Copy, Debug, PartialEq, Eq, PartialOrd, Ord, Structural)]
pub struct BootServiceCapability {
    size: u8,
    structure_version: Version,
    protocol_spec_version: Version,
    hash_algorithm_bitmap: u8,
    tpm_present_flag: u8,
    tpm_deactivated_flag: u8,
}

/// The capability whose 12 bytes start at offset 0 of `bytes`.
pub closed spec fn spec_capability_from(bytes: Seq<u8>) -> BootServiceCapability {
    BootServiceCapability {
        size: bytes[0],
        structure_version: spec_version_at(bytes, 1),
        protocol_spec_version: spec_version_at(bytes, 5),
        hash_algorithm_bitmap: bytes[9],
        tpm_present_flag: bytes[10],
        tpm_deactivated_flag: bytes[11],
    }
}

/// What each field of a decoded capability holds: exactly the bytes of the
/// firmware image, at their fixed offsets.
pub proof fn lemma_capability_from(bytes: Seq<u8>)
    ensures
        spec_capability_from(bytes).spec_size() == bytes[0],
        spec_capability_from(bytes).spec_structure_version() == spec_version_at(bytes, 1),
        spec_capability_from(bytes).spec_protocol_spec_version() == spec_version_at(bytes, 5),
        spec_capability_from(bytes).spec_hash_algorithm_bitmap() == bytes[9],
        spec_capability_from(bytes).spec_tpm_present_flag() == bytes[10],
        spec_capability_from(bytes).spec_tpm_deactivated_flag() == bytes[11],
{
}

impl BootServiceCapability {
    /// The structure-size byte, carried verbatim.
    pub closed spec fn spec_size(self) -> u8 {
        self.size
    }

    /// Version of the capability structure itself.
    pub closed spec fn spec_structure_version(self) -> Version {
        self.structure_version
    }

    /// Version of the protocol specification.
    pub closed spec fn spec_protocol_spec_version(self) -> Version {
        self.protocol_spec_version
    }

    /// The raw hash-algorithm bitmap byte.
    pub closed spec fn spec_hash_algorithm_bitmap(self) -> u8 {
        self.hash_algorithm_bitmap
    }

    /// The raw TPM-present flag byte.
    pub closed spec fn spec_tpm_present_flag(self) -> u8 {
        self.tpm_present_flag
    }

    /// The raw TPM-deactivated flag byte.
    pub closed spec fn spec_tpm_deactivated_flag(self) -> u8 {
        self.tpm_deactivated_flag
    }

    /// Decode a capability from the 12-byte image a firmware call wrote.
    /// Every field is read in place, with no transformation and no
    /// validation of its value.
    pub fn from_bytes(bytes: &[u8]) -> (cap: Self)
        requires
            bytes@.len() == CAPABILITY_SIZE,
        ensures
            cap == spec_capability_from(bytes@),
            cap.spec_size() == bytes@[0],
            cap.spec_structure_version() == spec_version_at(bytes@, 1),
            cap.spec_protocol_spec_version() == spec_version_at(bytes@, 5),
            cap.spec_hash_algorithm_bitmap() == bytes@[9],
            cap.spec_tpm_present_flag() == bytes@[10],
            cap.spec_tpm_deactivated_flag() == bytes@[11],
    {
        BootServiceCapability {
            size: bytes[0],
            structure_version: Version {
                major: bytes[1],
                minor: bytes[2],
                rev_major: bytes[3],
                rev_minor: bytes[4],
            },
            protocol_spec_version: Version {
                major: bytes[5],
                minor: bytes[6],
                rev_major: bytes[7],
                rev_minor: bytes[8],
            },
            hash_algorithm_bitmap: bytes[9],
            tpm_present_flag: bytes[10],
            tpm_deactivated_flag: bytes[11],
        }
    }

    /// Version of the capability structure.
    pub fn structure_version(&self) -> (version: Version)
        ensures
            version == self.spec_structure_version(),
    {
        self.structure_version
    }

    /// Version of the protocol specification.
    pub fn protocol_spec_version(&self) -> (version: Version)
        ensures
            version == self.spec_protocol_spec_version(),
    {
        self.protocol_spec_version
    }

    /// Supported hash algorithms. The bitmap byte is widened and passed
    /// through verbatim; the expected value reports SHA-1, but an unexpected
    /// value is not rejected.
    pub fn hash_algorithm(&self) -> (algorithm: HashAlgorithm)
        ensures
            algorithm.0 == self.spec_hash_algorithm_bitmap(),
    {
        HashAlgorithm(self.hash_algorithm_bitmap as u32)
    }

    /// Whether the TPM device is present: the flag byte is non-zero.
    pub fn tpm_present(&self) -> (present: bool)
        ensures
            present == (self.spec_tpm_present_flag() != 0),
    {
        self.tpm_present_flag != 0
    }

    /// Whether the TPM device is deactivated: the flag byte is non-zero.
    pub fn tpm_deactivated(&self) -> (deactivated: bool)
        ensures
            deactivated == (self.spec_tpm_deactivated_flag() != 0),
    {
        self.tpm_deactivated_flag != 0
    }
}

} // verus!
