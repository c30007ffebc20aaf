//! Membership-change notifications as the gateway delivers them, and the
//! single ingestion point that forwards only the variant this system cares
//! about.

use vstd::prelude::*;

verus! {

/// One member's voice connection state at an instant: the guild it belongs
/// to, the channel the member is connected to (absent = not connected to
/// voice), and the member reference itself, each as the platform delivered
/// it (any field may be missing from a notification).
#[derive(Clone, Copy, Debug)]
pub struct VoiceState {
    pub guild_id: Option<i64>,
    pub channel_id: Option<i64>,
    pub member_id: Option<i64>,
}

/// A membership-change notification: the member's previous state, when the
/// platform knows one, and the new state. A single notification can stand
/// for a move between two managed channels.
#[derive(Clone, Copy, Debug)]
pub struct MembershipChange {
    pub previous: Option<VoiceState>,
    pub current: VoiceState,
}

/// The closed tagged union of gateway deliveries, seen from this system:
/// the one variant it reacts to, and everything else, ignored explicitly
/// rather than dropped by omission.
#[derive(Clone, Copy, Debug)]
pub enum GatewayEvent {
    VoiceStateUpdate { previous: Option<VoiceState>, current: VoiceState },
    Unhandled,
}

/// The single ingestion point: forward a membership change, ignore the rest.
pub fn ingest(event: &GatewayEvent) -> (r: Option<MembershipChange>)
    ensures
        match *event {
            GatewayEvent::VoiceStateUpdate { previous, current } => r == Some(
                MembershipChange { previous, current },
            ),
            GatewayEvent::Unhandled => r is None,
        },
{
    match event {
        GatewayEvent::VoiceStateUpdate { previous, current } => Some(
            MembershipChange { previous: *previous, current: *current },
        ),
        GatewayEvent::Unhandled => None,
    }
}

} // verus!
