//! The protocol entry point: the status-check operation.
//!
//! The firmware's status-check call writes four output parameters — a
//! 12-byte capability structure, the feature flags, and the log's location
//! and last-entry addresses — and returns a status code. The raw, non-Rust
//! call itself cannot stand in a verified library; the caller that performs
//! it hands its plain outputs in here, as the status code, the capability
//! bytes, the flags word, and the log region as a borrowed byte slice with
//! the last record's start offset. This function owes the caller the whole
//! decoded result on success and the typed failure, carrying the code, on
//! anything else; on failure no part of the result is constructed.

use vstd::prelude::*;

use crate::capability::{spec_capability_from, BootServiceCapability, CAPABILITY_SIZE};
use crate::log::{chain_wf, spec_records_from, EventLog};
use crate::record::SpecPcrEvent;
use crate::status::{Status, StatusError};

verus! {

/// Everything a successful status-check call reports.
pub struct StatusCheck<'a> {
    /// Information about the protocol and the TPM device.
    pub protocol_capability: BootServiceCapability,
    /// Feature flags, surfaced verbatim. The protocol specification defines
    /// none, so zero is expected — but not enforced — here.
    pub feature_flags: u32,
    /// The TPM event log.
    pub event_log: EventLog<'a>,
}

/// Assemble the result of one status-check call from the firmware's raw
/// outputs.
///
/// On the success status this decodes the capability, carries the feature
/// flags verbatim, and wraps the log region — never truncated for this
/// protocol version — for walking. On any other status it returns the typed
/// failure carrying that code, and constructs neither a capability nor a
/// log.
///
/// The preconditions are the call's fixed output-parameter size and, on
/// success, the firmware-honesty trust assumption on the reported log
/// bounds (see [`EventLog::new`]).
pub fn status_check<'a>(
    status: Status,
    capability_bytes: &[u8],
    feature_flags: u32,
    log_bytes: &'a [u8],
    log_last_entry: Option<usize>,
) -> (result: Result<StatusCheck<'a>, StatusError>)
    requires
        capability_bytes@.len() == CAPABILITY_SIZE,
        status.spec_is_success() ==> match log_last_entry {
            Some(last) => chain_wf(log_bytes@, 0, last as int),
            None => true,
        },
    ensures
        result is Ok <==> status.spec_is_success(),
        status.spec_is_success() ==> {
            let check = result->Ok_0;
            &&& check.protocol_capability == spec_capability_from(capability_bytes@)
            &&& check.feature_flags == feature_flags
            &&& check.event_log.wf()
            &&& !check.event_log.spec_is_truncated()
            &&& check.event_log.spec_bytes() == log_bytes@
            &&& check.event_log.spec_last_entry() == log_last_entry
            &&& check.event_log.records() == match log_last_entry {
                Some(last) => spec_records_from(log_bytes@, 0, last as int),
                None => Seq::<SpecPcrEvent>::empty(),
            }
        },
        !status.spec_is_success() ==> {
            &&& result == Result::<StatusCheck<'a>, StatusError>::Err(status.spec_error())
            &&& result->Err_0.spec_code() == status.0
        },
{
    if status.is_success() {
        let protocol_capability = BootServiceCapability::from_bytes(capability_bytes);
        // This protocol version never reports truncation.
        let event_log = EventLog::new(log_bytes, log_last_entry, false);
        Ok(StatusCheck { protocol_capability, feature_flags, event_log })
    } else {
        Err(status.to_error())
    }
}

} // verus!
