use crate::client_state::{advance_enabled, ClientState, ClientStateView, KeepAliveStatus};
use crate::protocol::ProtocolVersion;
use vstd::prelude::*;

verus! {

/// When keep-alive packets are sent to a client: the delay before the first
/// one (none: at once) and the time between two of them, in seconds.
#[derive(Clone, Copy, Debug, PartialEq, Eq, Structural)]
pub struct KeepAliveSchedule {
    pub first_after_secs: Option<u64>,
    pub period_secs: u64,
}

/// The schedule of keep-alive packets for a protocol version: every 2
/// seconds, the first after 2 seconds, up to 1.7.6; every 20 seconds, the
/// first at once, after.
pub open spec fn spec_keep_alive_schedule(protocol_version: ProtocolVersion) -> KeepAliveSchedule {
    if protocol_version.spec_number() <= ProtocolVersion::V1_7_6.spec_number() {
        KeepAliveSchedule { first_after_secs: Some(2), period_secs: 2 }
    } else {
        KeepAliveSchedule { first_after_secs: None, period_secs: 20 }
    }
}

/// Starts the keep-alive packets of a client that asked for them: returns
/// their schedule and records them as enabled. A client that did not ask
/// gets none, and is left as it was.
pub fn enable_keep_alive_if_needed(client_state: &mut ClientState) -> (schedule: Option<KeepAliveSchedule>)
    ensures
        old(client_state)@.keep_alive == KeepAliveStatus::ShouldEnable ==> {
            &&& schedule == Some(spec_keep_alive_schedule(old(client_state)@.protocol_version))
            &&& final(client_state)@ == (ClientStateView { keep_alive: KeepAliveStatus::Enabled, ..old(client_state)@ })
        },
        old(client_state)@.keep_alive != KeepAliveStatus::ShouldEnable ==> {
            &&& schedule is None
            &&& final(client_state)@ == old(client_state)@
        },
{
    if client_state.should_enable_keep_alive() {
        let schedule = if client_state.protocol_version().is_before_inclusive(ProtocolVersion::V1_7_6) {
            KeepAliveSchedule { first_after_secs: Some(2), period_secs: 2 }
        } else {
            KeepAliveSchedule { first_after_secs: None, period_secs: 20 }
        };
        client_state.set_keep_alive_enabled();
        Some(schedule)
    } else {
        None
    }
}

/// Keep-alive packets keep every client connected on its version's clock: up
/// to 1.7.6 every 2 seconds, the first after 2 seconds; from 1.8 on every 20
/// seconds, the first at once. The period is never zero.
pub proof fn lemma_keep_alive_schedule_by_version(protocol_version: ProtocolVersion)
    ensures
        spec_keep_alive_schedule(protocol_version).period_secs > 0,
        protocol_version.spec_number() <= ProtocolVersion::V1_7_6.spec_number() ==> spec_keep_alive_schedule(protocol_version)
            == (KeepAliveSchedule { first_after_secs: Some(2), period_secs: 2 }),
        protocol_version.spec_number() > ProtocolVersion::V1_7_6.spec_number() ==> spec_keep_alive_schedule(protocol_version)
            == (KeepAliveSchedule { first_after_secs: None, period_secs: 20 }),
{
}

/// Once enabled, keep-alive packets stay enabled: asking again starts nothing.
pub proof fn lemma_keep_alive_enabled_once(before: KeepAliveStatus)
    ensures
        before == KeepAliveStatus::ShouldEnable ==> advance_enabled(before) == KeepAliveStatus::Enabled,
        advance_enabled(advance_enabled(before)) == advance_enabled(before),
{
}

} // verus!
