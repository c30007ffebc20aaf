//! The orchestrator's guarantees, stated and proved once and for all over
//! the relations that the handlers' and commands' contracts establish.

use vstd::prelude::*;

use crate::commands::{create_post, limit_post, overwrite_post, rename_post};
use crate::directory::{relocated, DirView, PermissionOverwrite};
use crate::errors::OrchestratorError;
use crate::events::VoiceState;
use crate::orchestrator::{join_post, leave_post, temporary_name};
use crate::registry::{ChannelKind, RegView};

verus! {

/// Every managed id was handed out by the directory: it lies below the
/// next identifier the platform will assign. This holds of any run that
/// starts from an empty registry, because records are only ever created
/// for freshly created channels.
pub open spec fn consistent(reg: RegView, dir: DirView) -> bool {
    forall|id: i64| #[trigger] reg.contains(id) ==> 0 <= id < dir.next_id
}

/// Provisioning a Primary channel yields exactly one Primary record for
/// the fresh id — and never also a Temporary record for the same id.
pub proof fn law_create_registers_primary_once(
    reg0: RegView,
    dir0: DirView,
    reg1: RegView,
    dir1: DirView,
    r: Result<i64, OrchestratorError>,
)
    requires
        reg0.wf(),
        dir0.wf(),
        consistent(reg0, dir0),
        dir0.next_id < i64::MAX,
        create_post(reg0, dir0, reg1, dir1, r),
    ensures
        r == Ok::<i64, OrchestratorError>(dir0.next_id),
        reg1.primaries.contains(dir0.next_id),
        !reg1.temporaries.contains(dir0.next_id),
        reg1.wf(),
        consistent(reg1, dir1),
        forall|id: i64|
            id != dir0.next_id ==> (reg1.primaries.contains(id) == reg0.primaries.contains(id)
                && #[trigger] reg1.temporaries.contains(id) == reg0.temporaries.contains(id)),
{
    assert(!reg0.contains(dir0.next_id));
    assert forall|id: i64| #[trigger] reg1.contains(id) implies 0 <= id < dir1.next_id by {
        if id != dir0.next_id {
            assert(reg0.contains(id));
        }
    }
}

/// A join into a registered Primary channel, with guild and member known
/// and the Primary channel listed, creates exactly one new Temporary
/// channel, inserts exactly one new registry record, and relocates the
/// joining member into the new channel — touching nothing else, so
/// concurrent joins across different Primary channels cannot interfere.
pub proof fn law_primary_join_spawns(
    reg0: RegView,
    dir0: DirView,
    reg1: RegView,
    dir1: DirView,
    r: Result<(), OrchestratorError>,
    s: VoiceState,
    p: i64,
    m: i64,
)
    requires
        reg0.wf(),
        dir0.wf(),
        consistent(reg0, dir0),
        dir0.next_id < i64::MAX,
        join_post(reg0, dir0, reg1, dir1, r, s),
        s.channel_id == Some(p),
        reg0.primaries.contains(p),
        s.guild_id is Some,
        s.member_id == Some(m),
        dir0.has_channel(p),
    ensures
        r == Ok::<(), OrchestratorError>(()),
        // Exactly one new channel, with the fresh id and the placeholder
        // name, in the Primary channel's parent grouping.
        dir1.channels.len() == dir0.channels.len() + 1,
        dir1.next_id == dir0.next_id + 1,
        dir1.channels[dir0.channels.len() as int].id == dir0.next_id,
        dir1.channels[dir0.channels.len() as int].name == temporary_name(),
        dir1.channels[dir0.channels.len() as int].parent_id == dir0.channel(p).parent_id,
        dir1.channels[dir0.channels.len() as int].is_voice,
        // The joining member now occupies the new channel and no other.
        forall|j: int|
            0 <= j < dir1.channels.len() ==> (#[trigger] dir1.channels[j].occupants.contains(m)
                <==> dir1.channels[j].id == dir0.next_id),
        // Exactly one new registry record, of kind Temporary.
        reg1.primaries == reg0.primaries,
        reg1.temporaries == reg0.temporaries.insert(dir0.next_id),
        // No cross-talk: every pre-existing channel keeps its identity and
        // attributes, and loses no occupant other than the moved member.
        forall|j: int|
            0 <= j < dir0.channels.len() ==> relocated(
                #[trigger] dir0.channels[j],
                dir1.channels[j],
                m,
                dir0.next_id,
            ),
        reg1.wf(),
        consistent(reg1, dir1),
{
    assert(!reg0.contains(dir0.next_id));
    assert forall|id: i64| #[trigger] reg1.contains(id) implies 0 <= id < dir1.next_id by {
        if id != dir0.next_id {
            assert(reg0.contains(id));
        }
    }
    let mid = crate::orchestrator::spawned(dir0, p);
    assert(relocated(mid.channels[dir0.channels.len() as int], dir1.channels[dir0.channels.len() as int], m, dir0.next_id));
    assert forall|j: int| 0 <= j < dir1.channels.len() implies (
        #[trigger] dir1.channels[j].occupants.contains(m) <==> dir1.channels[j].id
            == dir0.next_id) by {
        assert(relocated(mid.channels[j], dir1.channels[j], m, dir0.next_id));
    }
    assert forall|j: int| 0 <= j < dir0.channels.len() implies relocated(
        #[trigger] dir0.channels[j],
        dir1.channels[j],
        m,
        dir0.next_id,
    ) by {
        assert(mid.channels[j] == dir0.channels[j]);
        assert(relocated(mid.channels[j], dir1.channels[j], m, dir0.next_id));
    }
}

/// A leave from a registered Temporary channel reclaims it exactly when
/// the fresh occupant count is zero: then the channel is deleted and its
/// record removed; when members remain, neither deletion nor
/// deregistration occurs.
pub proof fn law_temporary_leave_reclaims(
    reg0: RegView,
    dir0: DirView,
    reg1: RegView,
    dir1: DirView,
    r: Result<(), OrchestratorError>,
    s: VoiceState,
    c: i64,
)
    requires
        dir0.wf(),
        leave_post(reg0, dir0, reg1, dir1, r, s),
        s.channel_id == Some(c),
        reg0.temporaries.contains(c),
        s.guild_id is Some,
        dir0.has_channel(c),
    ensures
        r == Ok::<(), OrchestratorError>(()),
        dir0.channel(c).occupants.len() == 0 ==> !dir1.has_channel(c)
            && dir1.channels.len() == dir0.channels.len() - 1 && reg1.temporaries
            == reg0.temporaries.remove(c) && reg1.primaries == reg0.primaries,
        dir0.channel(c).occupants.len() > 0 ==> dir1 == dir0 && reg1 == reg0,
{
    if dir0.channel(c).occupants.len() == 0 {
        let i = dir0.index_of(c);
        assert(0 <= i < dir0.channels.len() && dir0.channels[i].id == c);
        assert(!dir1.has_channel(c)) by {
            if dir1.has_channel(c) {
                let k = choose|k: int|
                    0 <= k < dir1.channels.len() && #[trigger] dir1.channels[k].id == c;
                if k < i {
                    assert(dir0.channels[k].id == c);
                } else {
                    assert(dir0.channels[k + 1].id == c);
                }
            }
        }
    }
}

/// Deregistration is idempotent: erasing the same record twice leaves
/// exactly the state one erasure leaves, and neither call can fail.
pub proof fn law_deregistration_idempotent(reg: RegView, id: i64, kind: ChannelKind)
    ensures
        reg.erase(id, kind).erase(id, kind) == reg.erase(id, kind),
{
    assert(reg.erase(id, kind).erase(id, kind) =~~= reg.erase(id, kind));
}

/// A rename against a resolved channel not registered Temporary always
/// fails with `NotModifiable` and performs no directory mutation.
pub proof fn law_rename_gated(
    reg: RegView,
    dir0: DirView,
    dir1: DirView,
    r: Result<(), OrchestratorError>,
    caller: i64,
    name: Seq<char>,
    i: int,
)
    requires
        rename_post(reg, dir0, dir1, r, caller, name),
        crate::commands::resolved_index(dir0, caller) == Some(i),
        !reg.temporaries.contains(dir0.channels[i].id),
    ensures
        r == Err::<(), OrchestratorError>(OrchestratorError::NotModifiable),
        dir1 == dir0,
{
}

/// A visibility change against a resolved channel not registered
/// Temporary always fails with `NotModifiable` and performs no directory
/// mutation.
pub proof fn law_overwrite_gated(
    reg: RegView,
    dir0: DirView,
    dir1: DirView,
    r: Result<(), OrchestratorError>,
    caller: i64,
    overwrites: Seq<PermissionOverwrite>,
    i: int,
)
    requires
        overwrite_post(reg, dir0, dir1, r, caller, overwrites),
        crate::commands::resolved_index(dir0, caller) == Some(i),
        !reg.temporaries.contains(dir0.channels[i].id),
    ensures
        r == Err::<(), OrchestratorError>(OrchestratorError::NotModifiable),
        dir1 == dir0,
{
}

/// An occupancy-cap change against a resolved channel not registered
/// Temporary always fails with `NotModifiable` and performs no directory
/// mutation.
pub proof fn law_limit_gated(
    reg: RegView,
    dir0: DirView,
    dir1: DirView,
    r: Result<(), OrchestratorError>,
    caller: i64,
    number: u64,
    i: int,
)
    requires
        limit_post(reg, dir0, dir1, r, caller, number),
        crate::commands::resolved_index(dir0, caller) == Some(i),
        !reg.temporaries.contains(dir0.channels[i].id),
    ensures
        r == Err::<(), OrchestratorError>(OrchestratorError::NotModifiable),
        dir1 == dir0,
{
}

/// Both handler paths keep the registry–directory coupling: a run that
/// starts consistent stays consistent, join and leave alike.
pub proof fn law_handlers_preserve_consistency(
    reg0: RegView,
    dir0: DirView,
    reg1: RegView,
    dir1: DirView,
    r: Result<(), OrchestratorError>,
    s: VoiceState,
)
    requires
        dir0.wf(),
        consistent(reg0, dir0),
        dir0.next_id < i64::MAX,
        join_post(reg0, dir0, reg1, dir1, r, s) || leave_post(reg0, dir0, reg1, dir1, r, s),
    ensures
        consistent(reg1, dir1),
{
    assert forall|id: i64| #[trigger] reg1.contains(id) implies 0 <= id < dir1.next_id by {
        if reg0.contains(id) {
        } else {
            assert(id == dir0.next_id);
        }
    }
}

} // verus!
