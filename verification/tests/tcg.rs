// Tests for the v1 trusted-computing protocol binding: status translation,
// capability decoding, record views, and the event-log walk.

use uefi_tcg::capability::{BootServiceCapability, Version};
use uefi_tcg::log::EventLog;
use uefi_tcg::record::PcrEvent;
use uefi_tcg::status::{Status, StatusError, STATUS_NOT_READY, STATUS_SUCCESS};
use uefi_tcg::tcg::status_check;
use uefi_tcg::{EventType, HashAlgorithm, PcrIndex};

/// The reference TPM event-log dump, truncated to two entries: the second
/// record starts at offset 34.
fn two_record_log() -> [u8; 82] {
    [
    // Event 1
    // PCR index
    0x00, 0x00, 0x00, 0x00,
    // Event type
    0x08, 0x00, 0x00, 0x00,
    // SHA1 digest
    0x14, 0x89, 0xf9, 0x23, 0xc4, 0xdc, 0xa7, 0x29, 0x17, 0x8b,
    0x3e, 0x32, 0x33, 0x45, 0x85, 0x50, 0xd8, 0xdd, 0xdf, 0x29,
    // Event data size
    0x02, 0x00, 0x00, 0x00,
    // Event data
    0x00, 0x00,

    // Event 2
    // PCR index
    0x00, 0x00, 0x00, 0x00,
    // Event type
    0x08, 0x00, 0x00, 0x80,
    // SHA1 digest
    0xc7, 0x06, 0xe7, 0xdd, 0x36, 0x39, 0x29, 0x84, 0xeb, 0x06,
    0xaa, 0xa0, 0x8f, 0xf3, 0x36, 0x84, 0x40, 0x77, 0xb3, 0xed,
    // Event data size
    0x10, 0x00, 0x00, 0x00,
    // Event data
    0x00, 0x00, 0x82, 0x00, 0x00, 0x00, 0x00, 0x00,
    0x00, 0x00, 0x0e, 0x00, 0x00, 0x00, 0x00, 0x00,
    ]
}

#[test]
fn test_event_log_v1() {
    // This data comes from dumping the TPM event log in a VM
    // (truncated to just two entries).
    let bytes = two_record_log();

    let log = EventLog::new(&bytes, Some(34), false);
    let mut iter = log.iter();

    // Entry 1
    let entry = iter.next().unwrap();
    assert_eq!(entry.pcr_index(), PcrIndex(0));
    assert_eq!(entry.event_type(), EventType::crtm_version());
    assert_eq!(
        entry.digest(),
        [
            0x14, 0x89, 0xf9, 0x23, 0xc4, 0xdc, 0xa7, 0x29, 0x17, 0x8b,
            0x3e, 0x32, 0x33, 0x45, 0x85, 0x50, 0xd8, 0xdd, 0xdf, 0x29,
        ]
    );
    assert_eq!(entry.event_data(), [0x00, 0x00]);

    // Entry 2
    let entry = iter.next().unwrap();
    assert_eq!(entry.pcr_index(), PcrIndex(0));
    assert_eq!(entry.event_type(), EventType::efi_platform_firmware_blob());
    assert_eq!(
        entry.digest(),
        [
            0xc7, 0x06, 0xe7, 0xdd, 0x36, 0x39, 0x29, 0x84, 0xeb, 0x06,
            0xaa, 0xa0, 0x8f, 0xf3, 0x36, 0x84, 0x40, 0x77, 0xb3, 0xed,
        ]
    );
    assert_eq!(
        entry.event_data(),
        [
            0x00, 0x00, 0x82, 0x00, 0x00, 0x00, 0x00, 0x00,
            0x00, 0x00, 0x0e, 0x00, 0x00, 0x00, 0x00, 0x00,
        ]
    );
}

#[test]
fn two_record_walk_completes() {
    // The reference scenario: two records, then completion on the third
    // call, and the exact count of yielded items.
    let bytes = two_record_log();
    let log = EventLog::new(&bytes, Some(34), false);
    let mut iter = log.iter();

    let first = iter.next().unwrap();
    assert_eq!(first.pcr_index(), PcrIndex(0));
    assert_eq!(first.event_type().0, 0x0000_0008);
    let second = iter.next().unwrap();
    assert_eq!(second.pcr_index(), PcrIndex(0));
    assert_eq!(second.event_type().0, 0x8000_0008);
    assert!(iter.next().is_none());
    // Once exhausted, the walk stays exhausted.
    assert!(iter.next().is_none());
}

#[test]
fn walk_is_restartable() {
    // A full walk yields exactly N items, and a fresh walk over the same
    // log yields the identical items again.
    let bytes = two_record_log();
    let log = EventLog::new(&bytes, Some(34), false);

    let mut first_walk = Vec::new();
    let mut iter = log.iter();
    while let Some(event) = iter.next() {
        first_walk.push((
            event.pcr_index(),
            event.event_type(),
            event.digest(),
            event.event_data().to_vec(),
        ));
    }
    assert_eq!(first_walk.len(), 2);

    let mut second_walk = Vec::new();
    let mut iter = log.iter();
    while let Some(event) = iter.next() {
        second_walk.push((
            event.pcr_index(),
            event.event_type(),
            event.digest(),
            event.event_data().to_vec(),
        ));
    }
    assert_eq!(first_walk, second_walk);
}

#[test]
fn record_sizes_give_distance_to_next_record() {
    // For each yielded record but the last, header size plus event-data
    // length is the distance to the next record's start: 32 + 2 == 34.
    let bytes = two_record_log();
    let log = EventLog::new(&bytes, Some(34), false);
    let mut iter = log.iter();
    let first = iter.next().unwrap();
    assert_eq!(32 + first.event_data().len(), 34);
    assert_eq!(first.size(), 34);
    let second = iter.next().unwrap();
    assert_eq!(second.size(), 32 + second.event_data().len());
}

#[test]
fn empty_log_yields_nothing() {
    // A log whose last-entry location is the sentinel has no records.
    let bytes: [u8; 0] = [];
    let log = EventLog::new(&bytes, None, false);
    let mut iter = log.iter();
    assert!(iter.next().is_none());
    assert!(iter.next().is_none());
}

#[test]
fn v1_log_is_never_truncated() {
    let bytes = two_record_log();
    let log = EventLog::new(&bytes, Some(34), false);
    assert!(!log.is_truncated());

    let capability_bytes = [12u8, 1, 2, 0, 0, 1, 2, 0, 0, 1, 1, 0];
    let result = status_check(Status(STATUS_SUCCESS), &capability_bytes, 0, &bytes, Some(34))
        .ok()
        .unwrap();
    assert!(!result.event_log.is_truncated());
}

#[test]
fn record_view_round_trip() {
    // Encode a synthetic record by the layout and view it at its start: the
    // view reproduces every field exactly.
    let pcr_index: u32 = 7;
    let event_type: u32 = 0x8000_0002;
    let digest: [u8; 20] = [
        1, 2, 3, 4, 5, 6, 7, 8, 9, 10, 11, 12, 13, 14, 15, 16, 17, 18, 19, 20,
    ];
    let event_data: [u8; 5] = [0xaa, 0xbb, 0xcc, 0xdd, 0xee];

    let mut bytes = Vec::new();
    bytes.extend_from_slice(&pcr_index.to_le_bytes());
    bytes.extend_from_slice(&event_type.to_le_bytes());
    bytes.extend_from_slice(&digest);
    bytes.extend_from_slice(&(event_data.len() as u32).to_le_bytes());
    bytes.extend_from_slice(&event_data);

    let event = PcrEvent::from_offset(&bytes, 0);
    assert_eq!(event.pcr_index(), PcrIndex(7));
    assert_eq!(event.event_type(), EventType(0x8000_0002));
    assert_eq!(event.digest(), digest);
    assert_eq!(event.event_data(), event_data);
    assert_eq!(event.size(), 37);
}

#[test]
fn capability_decoding_reads_fields_in_place() {
    let bytes = [
        12u8, // size
        1, 2, 3, 4, // structure version
        1, 2, 5, 6, // protocol-spec version
        0x01, // hash-algorithm bitmap: SHA-1
        1,    // TPM present
        0,    // TPM not deactivated
    ];
    let capability = BootServiceCapability::from_bytes(&bytes);
    assert_eq!(
        capability.structure_version(),
        Version { major: 1, minor: 2, rev_major: 3, rev_minor: 4 }
    );
    assert_eq!(
        capability.protocol_spec_version(),
        Version { major: 1, minor: 2, rev_major: 5, rev_minor: 6 }
    );
    assert_eq!(capability.hash_algorithm(), HashAlgorithm::sha1());
    assert!(capability.tpm_present());
    assert!(!capability.tpm_deactivated());
}

#[test]
fn capability_passes_unexpected_bitmap_through() {
    // An out-of-specification hash-algorithm bitmap is surfaced verbatim,
    // not rejected.
    let bytes = [12u8, 1, 2, 0, 0, 1, 2, 0, 0, 0x7f, 0, 2];
    let capability = BootServiceCapability::from_bytes(&bytes);
    assert_eq!(capability.hash_algorithm().0, 0x7f);
    assert!(!capability.tpm_present());
    assert!(capability.tpm_deactivated());
}

#[test]
fn status_translation() {
    assert!(Status(STATUS_SUCCESS).is_success());
    assert!(Status(STATUS_SUCCESS).to_result().is_ok());

    let not_ready = Status(STATUS_NOT_READY);
    assert!(!not_ready.is_success());
    assert!(not_ready.is_not_ready());
    assert_eq!(not_ready.to_result(), Err(StatusError::NotReady));
    assert_eq!(StatusError::NotReady.code(), STATUS_NOT_READY);

    let failure = Status(21);
    assert!(!failure.is_success());
    assert!(!failure.is_not_ready());
    assert_eq!(failure.to_result(), Err(StatusError::Failure(21)));
    assert_eq!(StatusError::Failure(21).code(), 21);
}

#[test]
fn status_check_success_decodes_everything() {
    let capability_bytes = [12u8, 1, 2, 0, 0, 1, 2, 0, 0, 0x01, 1, 0];
    let log_bytes = two_record_log();
    let result = status_check(
        Status(STATUS_SUCCESS),
        &capability_bytes,
        0,
        &log_bytes,
        Some(34),
    );
    let check = result.ok().unwrap();
    assert_eq!(check.feature_flags, 0);
    assert!(check.protocol_capability.tpm_present());
    assert_eq!(check.protocol_capability.hash_algorithm().0, 0x1);
    let mut iter = check.event_log.iter();
    assert_eq!(iter.next().unwrap().event_type(), EventType::crtm_version());
    assert_eq!(
        iter.next().unwrap().event_type(),
        EventType::efi_platform_firmware_blob()
    );
    assert!(iter.next().is_none());
}

#[test]
fn status_check_failure_yields_typed_error_carrying_code() {
    // Any non-success code yields a typed error carrying that code, and no
    // capability or log is constructed.
    let capability_bytes = [0u8; 12];
    let empty: [u8; 0] = [];

    let failed = status_check(Status(0x8000_0000_0000_0015), &capability_bytes, 0, &empty, None);
    match failed {
        Err(error) => assert_eq!(error.code(), 0x8000_0000_0000_0015),
        Ok(_) => panic!("a non-success status must not produce a result"),
    }

    let not_ready = status_check(Status(STATUS_NOT_READY), &capability_bytes, 0, &empty, None);
    match not_ready {
        Err(StatusError::NotReady) => {}
        _ => panic!("the reserved not-ready code must map to its own failure"),
    }
}
