//! The error taxonomy of the orchestrator. Command-path errors are surfaced
//! to the invoking user as a short message; event-path errors are caught at
//! the router boundary, logged, and otherwise swallowed by contract.

use vstd::prelude::*;

verus! {

/// Everything that can go wrong in a handler or command invocation. No
/// failure is retried; each is terminal for its invocation.
#[derive(Clone, Copy, PartialEq, Eq, Structural, Debug)]
pub enum OrchestratorError {
    /// A command was invoked outside a managed community context.
    NotInGuildContext,
    /// A command was invoked by a member not currently in any voice channel.
    NotInVoiceChannel,
    /// The target channel is Primary or unmanaged; no mutation is attempted.
    NotModifiable,
    /// A create/edit/delete/move against the external platform failed.
    DirectoryOperationFailed,
    /// A read or write of the persisted registry failed.
    RegistryOperationFailed,
    /// A notification lacked a required field: a leave without an origin
    /// channel id, or a join without a member reference.
    MalformedNotification,
}

impl OrchestratorError {
    /// The short, user-visible message for this failure.
    pub fn user_message(&self) -> (r: &'static str)
        ensures
            match *self {
                OrchestratorError::NotInGuildContext => r@ == "Command invoked outside of a guild"@,
                OrchestratorError::NotInVoiceChannel => r@
                    == "You must be in a voice channel to use this command."@,
                OrchestratorError::NotModifiable => r@ == "Permanent channels cannot be modified"@,
                OrchestratorError::DirectoryOperationFailed => r@ == "Failed to modify channel"@,
                OrchestratorError::RegistryOperationFailed => r@ == "Failed to update the registry"@,
                OrchestratorError::MalformedNotification => r@ == "No channel id found"@,
            },
    {
        match self {
            OrchestratorError::NotInGuildContext => "Command invoked outside of a guild",
            OrchestratorError::NotInVoiceChannel => "You must be in a voice channel to use this command.",
            OrchestratorError::NotModifiable => "Permanent channels cannot be modified",
            OrchestratorError::DirectoryOperationFailed => "Failed to modify channel",
            OrchestratorError::RegistryOperationFailed => "Failed to update the registry",
            OrchestratorError::MalformedNotification => "No channel id found",
        }
    }
}

} // verus!
