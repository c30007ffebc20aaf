//! Channel-lifecycle orchestration for self-provisioned voice rooms.
//!
//! Members of a community join a designated Primary entry channel; the
//! orchestrator spawns a sibling Temporary room, relocates the member into
//! it, and reclaims the room the moment it empties. A small command surface
//! lets the occupant adjust a Temporary room's name, visibility, and
//! occupancy cap. The registry of managed channels, the decision logic of
//! every handler, and the command gating are verified here; the process
//! around it (gateway, REST client, persistence) performs the actions this
//! library decides on.

pub mod commands;
pub mod directory;
pub mod errors;
pub mod events;
pub mod laws;
pub mod orchestrator;
pub mod registry;

use vstd::prelude::*;

verus! {

/// A channel identifier as the platform hands it out: an opaque integer.
pub type ChannelId = i64;

} // verus!
