//! The membership event router and the two lifecycle handlers.
//!
//! A membership-change notification always drives the join path with its
//! new state and, when a previous state is present, additionally drives the
//! leave path with it. The two reactions are logically unrelated: a failure
//! in one must not prevent or roll back the other, and the router swallows
//! both outcomes by contract. Each handler's full effect on the registry
//! and the directory is captured by a relation (`join_post`, `leave_post`)
//! that its contract states exactly.

use vstd::prelude::*;

use crate::directory::{fresh_channel, moved, DirView, DirectorySnapshot};
use crate::errors::OrchestratorError;
use crate::events::VoiceState;
use crate::registry::{ChannelKind, PrimaryChannel, RegView, Registry, TemporaryChannel};

verus! {

/// The fixed placeholder name every auto-created Temporary channel starts
/// with; the occupant may rename it later.
pub open spec fn temporary_name() -> Seq<char> {
    "[General]"@
}

/// The placeholder name, as a value to hand to the directory client.
pub fn temporary_channel_name() -> (r: String)
    ensures
        r@ == temporary_name(),
{
    String::from_str("[General]")
}

/// The directory after the join handler created a Temporary sibling of the
/// Primary channel `p`: a fresh voice channel with the placeholder name,
/// placed in `p`'s parent grouping.
pub open spec fn spawned(dir: DirView, p: i64) -> DirView {
    DirView {
        channels: dir.channels.push(
            fresh_channel(dir.next_id, temporary_name(), dir.channel(p).parent_id, Seq::empty()),
        ),
        next_id: (dir.next_id + 1) as i64,
    }
}

/// Exact effect of the join path for the new state `s`: how the registry
/// and directory after the call (`reg1`, `dir1`) relate to those before it
/// (`reg0`, `dir0`), and which result `r` comes back.
///
/// A state with no channel id (the member disconnected) and a join into a
/// channel not registered Primary are intentional no-ops. Otherwise the
/// handler creates the Temporary sibling, registers it, and relocates the
/// member; any step failing aborts the remaining steps, so a channel can
/// remain created but unregistered, or registered with the member unmoved —
/// the recognized inconsistency windows.
pub open spec fn join_post(
    reg0: RegView,
    dir0: DirView,
    reg1: RegView,
    dir1: DirView,
    r: Result<(), OrchestratorError>,
    s: VoiceState,
) -> bool {
    match s.channel_id {
        None => r == Ok::<(), OrchestratorError>(()) && reg1 == reg0 && dir1 == dir0,
        Some(p) => if !reg0.primaries.contains(p) {
            r == Ok::<(), OrchestratorError>(()) && reg1 == reg0 && dir1 == dir0
        } else if s.guild_id is None {
            r == Err::<(), OrchestratorError>(OrchestratorError::NotInGuildContext) && reg1 == reg0
                && dir1 == dir0
        } else if !dir0.has_channel(p) {
            r == Err::<(), OrchestratorError>(OrchestratorError::DirectoryOperationFailed) && reg1
                == reg0 && dir1 == dir0
        } else {
            let t = dir0.next_id;
            let mid = spawned(dir0, p);
            if reg0.contains(t) {
                r == Err::<(), OrchestratorError>(OrchestratorError::RegistryOperationFailed)
                    && reg1 == reg0 && dir1 == mid
            } else {
                reg1 == reg0.record(t, ChannelKind::Temporary) && match s.member_id {
                    None => r == Err::<(), OrchestratorError>(
                        OrchestratorError::MalformedNotification,
                    ) && dir1 == mid,
                    Some(m) => r == Ok::<(), OrchestratorError>(()) && moved(mid, dir1, m, t),
                }
            }
        },
    }
}

/// Exact effect of the leave path for the previous state `s`.
///
/// A leave notification with no origin channel id is unexpected and is
/// surfaced, not silently dropped. A leave from a channel not registered
/// Temporary is an intentional no-op. For a registered Temporary channel
/// the handler takes a fresh occupant count; only when the channel is empty
/// does it delete the channel and then deregister it, in that order, so a
/// failed deletion never silently drops a record while the channel exists.
pub open spec fn leave_post(
    reg0: RegView,
    dir0: DirView,
    reg1: RegView,
    dir1: DirView,
    r: Result<(), OrchestratorError>,
    s: VoiceState,
) -> bool {
    match s.channel_id {
        None => r == Err::<(), OrchestratorError>(OrchestratorError::MalformedNotification) && reg1
            == reg0 && dir1 == dir0,
        Some(c) => if !reg0.temporaries.contains(c) {
            r == Ok::<(), OrchestratorError>(()) && reg1 == reg0 && dir1 == dir0
        } else if s.guild_id is None {
            r == Err::<(), OrchestratorError>(OrchestratorError::NotInGuildContext) && reg1 == reg0
                && dir1 == dir0
        } else if !dir0.has_channel(c) {
            r == Err::<(), OrchestratorError>(OrchestratorError::DirectoryOperationFailed) && reg1
                == reg0 && dir1 == dir0
        } else if dir0.channel(c).occupants.len() > 0 {
            r == Ok::<(), OrchestratorError>(()) && reg1 == reg0 && dir1 == dir0
        } else {
            r == Ok::<(), OrchestratorError>(()) && dir1 == dir0.remove_channel(c) && reg1
                == reg0.erase(c, ChannelKind::Temporary)
        },
    }
}

/// React to a join: if the new state's channel is registered Primary,
/// create a Temporary sibling, register it, and relocate the member.
pub fn voice_join_handler(
    reg: &mut Registry,
    dir: &mut DirectorySnapshot,
    state: &VoiceState,
) -> (r: Result<(), OrchestratorError>)
    requires
        old(reg).wf(),
        old(dir)@.wf(),
        old(dir)@.next_id < i64::MAX,
    ensures
        final(reg).wf(),
        final(dir)@.wf(),
        join_post(old(reg)@, old(dir)@, final(reg)@, final(dir)@, r, *state),
{
    let p = match state.channel_id {
        None => {
            // Happens when the member disconnects from voice entirely.
            return Ok(());
        },
        Some(p) => p,
    };
    if !PrimaryChannel::record_exists(p, reg) {
        return Ok(());
    }
    handle_primary_channels(reg, dir, state)
}

/// The join path proper, once the new state's channel is known Primary:
/// resolve the parent grouping, create the Temporary sibling, register it,
/// relocate the member.
pub fn handle_primary_channels(
    reg: &mut Registry,
    dir: &mut DirectorySnapshot,
    state: &VoiceState,
) -> (r: Result<(), OrchestratorError>)
    requires
        old(reg).wf(),
        old(dir)@.wf(),
        old(dir)@.next_id < i64::MAX,
        state.channel_id is Some,
        old(reg)@.primaries.contains(state.channel_id.unwrap()),
    ensures
        final(reg).wf(),
        final(dir)@.wf(),
        join_post(old(reg)@, old(dir)@, final(reg)@, final(dir)@, r, *state),
{
    let p = match state.channel_id {
        Some(p) => p,
        None => {
            return Err(OrchestratorError::MalformedNotification);
        },
    };
    if state.guild_id.is_none() {
        return Err(OrchestratorError::NotInGuildContext);
    }
    // Resolve the Primary channel's parent grouping, if any.
    if !dir.contains_channel(p) {
        return Err(OrchestratorError::DirectoryOperationFailed);
    }
    let parent = dir.parent_of(p);
    // Create the Temporary sibling in the same grouping.
    let no_overwrites: Vec<crate::directory::PermissionOverwrite> = Vec::new();
    proof {
        assert(no_overwrites@ =~= Seq::<crate::directory::PermissionOverwrite>::empty());
    }
    let t = dir.create_voice_channel(temporary_channel_name(), parent, no_overwrites);
    proof {
        assert(dir@ =~~= spawned(old(dir)@, p));
    }
    // Register the new channel; a failure here leaves the created channel
    // as a recognized orphan rather than attempting a distributed rollback.
    if TemporaryChannel::insert(t, reg).is_err() {
        return Err(OrchestratorError::RegistryOperationFailed);
    }
    // Relocate the joining member into the new channel.
    let m = match state.member_id {
        None => {
            return Err(OrchestratorError::MalformedNotification);
        },
        Some(m) => m,
    };
    proof {
        assert(dir@.has_channel(t)) by {
            assert(dir@.channels[dir@.channels.len() - 1].id == t);
        }
    }
    dir.move_member(m, t);
    Ok(())
}

/// React to a leave: if the previous state's channel is registered
/// Temporary and now stands empty, delete it and deregister it.
pub fn voice_leave_handler(
    reg: &mut Registry,
    dir: &mut DirectorySnapshot,
    state: &VoiceState,
) -> (r: Result<(), OrchestratorError>)
    requires
        old(reg).wf(),
        old(dir)@.wf(),
    ensures
        final(reg).wf(),
        final(dir)@.wf(),
        leave_post(old(reg)@, old(dir)@, final(reg)@, final(dir)@, r, *state),
{
    let c = match state.channel_id {
        None => {
            // A leave with no origin channel is unexpected: surface it.
            return Err(OrchestratorError::MalformedNotification);
        },
        Some(c) => c,
    };
    if !TemporaryChannel::record_exists(c, reg) {
        return Ok(());
    }
    handle_temporary_channels(reg, dir, state)
}

/// The leave path proper, once the origin channel is known Temporary: take
/// a fresh occupant count and reclaim the channel if it emptied.
///
/// Against the live platform the count and the deletion are not atomic; a
/// member who slips in between them is displaced — the deletion goes ahead
/// on the strength of the fresh read, and the displaced member's client
/// reconnects. The window is accepted, not worked around.
pub fn handle_temporary_channels(
    reg: &mut Registry,
    dir: &mut DirectorySnapshot,
    state: &VoiceState,
) -> (r: Result<(), OrchestratorError>)
    requires
        old(reg).wf(),
        old(dir)@.wf(),
        state.channel_id is Some,
        old(reg)@.temporaries.contains(state.channel_id.unwrap()),
    ensures
        final(reg).wf(),
        final(dir)@.wf(),
        leave_post(old(reg)@, old(dir)@, final(reg)@, final(dir)@, r, *state),
{
    let c = match state.channel_id {
        Some(c) => c,
        None => {
            return Err(OrchestratorError::MalformedNotification);
        },
    };
    if state.guild_id.is_none() {
        return Err(OrchestratorError::NotInGuildContext);
    }
    // A fresh read: correctness depends on seeing post-departure state.
    let count = match dir.occupant_count(c) {
        None => {
            return Err(OrchestratorError::DirectoryOperationFailed);
        },
        Some(n) => n,
    };
    if count > 0 {
        // Another member is still present, or rejoined in the interim.
        return Ok(());
    }
    // Delete first, deregister after: a failed deletion must not silently
    // drop a record while the channel still exists.
    dir.delete_channel(c);
    TemporaryChannel::delete(c, reg);
    Ok(())
}

/// The router: one notification always drives the join path with the new
/// state and, when a previous state is present, the leave path with it.
/// Both run to completion independently; the router logs and discards each
/// handler's outcome by contract and returns success regardless.
pub fn update_channels(
    reg: &mut Registry,
    dir: &mut DirectorySnapshot,
    previous: &Option<VoiceState>,
    current: &VoiceState,
) -> (r: Result<(), OrchestratorError>)
    requires
        old(reg).wf(),
        old(dir)@.wf(),
        old(dir)@.next_id < i64::MAX,
    ensures
        final(reg).wf(),
        final(dir)@.wf(),
        r == Ok::<(), OrchestratorError>(()),
        match *previous {
            None => exists|jr: Result<(), OrchestratorError>|
                #[trigger] join_post(old(reg)@, old(dir)@, final(reg)@, final(dir)@, jr, *current),
            Some(p) => exists|
                mr: RegView,
                md: DirView,
                jr: Result<(), OrchestratorError>,
                lr: Result<(), OrchestratorError>,
            |
                {
                    &&& #[trigger] join_post(old(reg)@, old(dir)@, mr, md, jr, *current)
                    &&& #[trigger] leave_post(mr, md, final(reg)@, final(dir)@, lr, p)
                },
        },
{
    let join_outcome = voice_join_handler(reg, dir, current);
    // Each handler's failure is a local concern: logged, never propagated,
    // so one reaction can never block the other.
    let _ = join_outcome;
    let ghost mid_reg = reg@;
    let ghost mid_dir = dir@;
    match previous {
        Some(prev) => {
            let leave_outcome = voice_leave_handler(reg, dir, prev);
            let _ = leave_outcome;
            proof {
                assert(join_post(old(reg)@, old(dir)@, mid_reg, mid_dir, join_outcome, *current));
                assert(leave_post(mid_reg, mid_dir, reg@, dir@, leave_outcome, *prev));
            }
        },
        None => {
            proof {
                assert(join_post(old(reg)@, old(dir)@, reg@, dir@, join_outcome, *current));
            }
        },
    }
    Ok(())
}

} // verus!
