//! The command surface: provisioning a Primary channel, and the attribute
//! mutations an occupant may apply to a Temporary channel (rename,
//! visibility, occupancy cap).
//!
//! Every mutation shares one resolution step — find the voice channel the
//! caller currently occupies — and one gate: the resolved channel must be
//! registered Temporary, otherwise the command fails with `NotModifiable`
//! and performs no directory mutation at all.

use vstd::prelude::*;

use crate::directory::{
    fresh_channel, id_list_contains, DirView, DirectorySnapshot, OverwriteTarget,
    PermissionOverwrite, CONNECT_PERMISSION,
};
use crate::errors::OrchestratorError;
use crate::registry::{ChannelKind, PrimaryChannel, RegView, Registry, TemporaryChannel};

verus! {

/// The fixed name a freshly provisioned Primary channel carries.
pub open spec fn primary_name() -> Seq<char> {
    "➕ New Session"@
}

/// That name, as a value to hand to the directory client.
pub fn primary_channel_name() -> (r: String)
    ensures
        r@ == primary_name(),
{
    String::from_str("➕ New Session")
}

/// The decorating wrapper applied to every user-supplied channel name:
/// the raw text is never used as the final name.
pub open spec fn decorated(name: Seq<char>) -> Seq<char> {
    "["@ + name + "]"@
}

/// Apply the decorating wrapper to a user-supplied name.
pub fn decorate_name(name: &String) -> (r: String)
    ensures
        r@ == decorated(name@),
{
    String::from_str("[").concat(name.as_str()).concat("]")
}

/// The first voice channel at or after position `i` that the member `m`
/// currently occupies.
pub open spec fn resolved_from(dir: DirView, m: i64, i: int) -> Option<int>
    decreases dir.channels.len() - i,
{
    if i < 0 || i >= dir.channels.len() {
        None
    } else if dir.channels[i].is_voice && dir.channels[i].occupants.contains(m) {
        Some(i)
    } else {
        resolved_from(dir, m, i + 1)
    }
}

/// The position of the voice channel the member `m` currently occupies,
/// scanning the guild's channels in directory order.
pub open spec fn resolved_index(dir: DirView, m: i64) -> Option<int> {
    resolved_from(dir, m, 0)
}

/// Resolve the voice channel the invoking member currently occupies, by
/// membership lookup across all voice channels; fails with
/// `NotInVoiceChannel` if the member occupies none.
pub fn get_voice_channel(dir: &DirectorySnapshot, member: i64) -> (r: Result<
    i64,
    OrchestratorError,
>)
    ensures
        match resolved_index(dir@, member) {
            Some(i) => r == Ok::<i64, OrchestratorError>(dir@.channels[i].id),
            None => r == Err::<i64, OrchestratorError>(OrchestratorError::NotInVoiceChannel),
        },
{
    let mut i: usize = 0;
    while i < dir.channels.len()
        invariant
            i <= dir@.channels.len(),
            resolved_index(dir@, member) == resolved_from(dir@, member, i as int),
        decreases dir@.channels.len() - i,
    {
        let ch = &dir.channels[i];
        if ch.is_voice && id_list_contains(&ch.occupants, member) {
            return Ok(ch.id);
        }
        i = i + 1;
    }
    Err(OrchestratorError::NotInVoiceChannel)
}

/// Outcome of the shared resolution-and-gate step: the resolved Temporary
/// channel's id, or the error every mutation command fails with.
pub open spec fn gate(reg: RegView, dir: DirView, caller: i64) -> Result<i64, OrchestratorError> {
    match resolved_index(dir, caller) {
        None => Err(OrchestratorError::NotInVoiceChannel),
        Some(i) => if !reg.temporaries.contains(dir.channels[i].id) {
            Err(OrchestratorError::NotModifiable)
        } else {
            Ok(dir.channels[i].id)
        },
    }
}

/// Exact effect of `rename`: on a gated channel the name becomes the
/// decorated form of the supplied text; on any gate failure the directory
/// is untouched.
pub open spec fn rename_post(
    reg: RegView,
    dir0: DirView,
    dir1: DirView,
    r: Result<(), OrchestratorError>,
    caller: i64,
    name: Seq<char>,
) -> bool {
    match gate(reg, dir0, caller) {
        Err(e) => r == Err::<(), OrchestratorError>(e) && dir1 == dir0,
        Ok(c) => r == Ok::<(), OrchestratorError>(()) && dir1 == dir0.update_channel(
            c,
            dir0.channel(c).with_name(decorated(name)),
        ),
    }
}

/// The overwrites that make a channel private: deny connect for the
/// guild's default role, allow connect for the orchestrator's own identity
/// so it retains administrative access.
pub open spec fn private_overwrites(guild_id: i64, bot_id: i64) -> Seq<PermissionOverwrite> {
    seq![
        PermissionOverwrite {
            allow: 0,
            deny: CONNECT_PERMISSION,
            target: OverwriteTarget::Role(guild_id),
        },
        PermissionOverwrite {
            allow: CONNECT_PERMISSION,
            deny: 0,
            target: OverwriteTarget::Member(bot_id),
        },
    ]
}

/// The overwrites that make a channel public again: a single neutral entry
/// for the guild's default role, removing the deny.
pub open spec fn public_overwrites(guild_id: i64) -> Seq<PermissionOverwrite> {
    seq![PermissionOverwrite { allow: 0, deny: 0, target: OverwriteTarget::Role(guild_id) }]
}

/// Exact effect of `private` and `public`: on a gated channel the
/// permission overwrites are replaced by `overwrites`; otherwise nothing.
pub open spec fn overwrite_post(
    reg: RegView,
    dir0: DirView,
    dir1: DirView,
    r: Result<(), OrchestratorError>,
    caller: i64,
    overwrites: Seq<PermissionOverwrite>,
) -> bool {
    match gate(reg, dir0, caller) {
        Err(e) => r == Err::<(), OrchestratorError>(e) && dir1 == dir0,
        Ok(c) => r == Ok::<(), OrchestratorError>(()) && dir1 == dir0.update_channel(
            c,
            dir0.channel(c).with_overwrites(overwrites),
        ),
    }
}

/// Exact effect of `limit` and `unlimit`: on a gated channel the occupancy
/// cap becomes `number` (0 = unlimited); otherwise nothing.
pub open spec fn limit_post(
    reg: RegView,
    dir0: DirView,
    dir1: DirView,
    r: Result<(), OrchestratorError>,
    caller: i64,
    number: u64,
) -> bool {
    match gate(reg, dir0, caller) {
        Err(e) => r == Err::<(), OrchestratorError>(e) && dir1 == dir0,
        Ok(c) => r == Ok::<(), OrchestratorError>(()) && dir1 == dir0.update_channel(
            c,
            dir0.channel(c).with_user_limit(number),
        ),
    }
}

/// Exact effect of `create`: the platform lists a fresh Primary entry
/// channel, then the registry records it. A stale registry record for the
/// fresh id leaves the created channel unregistered and fails the command.
pub open spec fn create_post(
    reg0: RegView,
    dir0: DirView,
    reg1: RegView,
    dir1: DirView,
    r: Result<i64, OrchestratorError>,
) -> bool {
    let t = dir0.next_id;
    let mid = DirView {
        channels: dir0.channels.push(fresh_channel(t, primary_name(), None, Seq::empty())),
        next_id: (dir0.next_id + 1) as i64,
    };
    dir1 == mid && if reg0.contains(t) {
        r == Err::<i64, OrchestratorError>(OrchestratorError::RegistryOperationFailed) && reg1
            == reg0
    } else {
        r == Ok::<i64, OrchestratorError>(t) && reg1 == reg0.record(t, ChannelKind::Primary)
    }
}

/// The shared resolution-and-gate step, executably: the id of the voice
/// channel the caller occupies, required to be registered Temporary.
fn resolve_temporary(reg: &Registry, dir: &DirectorySnapshot, caller: i64) -> (r: Result<
    i64,
    OrchestratorError,
>)
    ensures
        r == gate(reg@, dir@, caller),
{
    let c = match get_voice_channel(dir, caller) {
        Ok(c) => c,
        Err(e) => {
            return Err(e);
        },
    };
    if !TemporaryChannel::record_exists(c, reg) {
        // Permanent channels cannot be modified: no mutation is attempted.
        return Err(OrchestratorError::NotModifiable);
    }
    Ok(c)
}

/// Provision a new Primary entry channel and register it.
pub fn create(reg: &mut Registry, dir: &mut DirectorySnapshot) -> (r: Result<
    i64,
    OrchestratorError,
>)
    requires
        old(reg).wf(),
        old(dir)@.wf(),
        old(dir)@.next_id < i64::MAX,
    ensures
        final(reg).wf(),
        final(dir)@.wf(),
        create_post(old(reg)@, old(dir)@, final(reg)@, final(dir)@, r),
{
    let no_overwrites: Vec<PermissionOverwrite> = Vec::new();
    proof {
        assert(no_overwrites@ =~= Seq::<PermissionOverwrite>::empty());
    }
    let t = dir.create_voice_channel(primary_channel_name(), None, no_overwrites);
    proof {
        assert(dir@.channels =~= old(dir)@.channels.push(
            fresh_channel(old(dir)@.next_id, primary_name(), None, Seq::empty()),
        ));
    }
    if PrimaryChannel::insert(t, reg).is_err() {
        return Err(OrchestratorError::RegistryOperationFailed);
    }
    Ok(t)
}

/// Rename the caller's Temporary channel, applying the decorating wrapper
/// around the supplied name.
pub fn rename(reg: &Registry, dir: &mut DirectorySnapshot, caller: i64, name: &String) -> (r:
    Result<(), OrchestratorError>)
    requires
        old(dir)@.wf(),
    ensures
        final(dir)@.wf(),
        rename_post(reg@, old(dir)@, final(dir)@, r, caller, name@),
{
    let c = match resolve_temporary(reg, dir, caller) {
        Ok(c) => c,
        Err(e) => {
            return Err(e);
        },
    };
    proof {
        lemma_gate_resolves(reg@, dir@, caller, c);
    }
    dir.edit_name(c, decorate_name(name));
    Ok(())
}

/// Make the caller's Temporary channel private: deny connect for the
/// default role, allow connect for the orchestrator itself.
pub fn private(
    reg: &Registry,
    dir: &mut DirectorySnapshot,
    caller: i64,
    guild_id: i64,
    bot_id: i64,
) -> (r: Result<(), OrchestratorError>)
    requires
        old(dir)@.wf(),
    ensures
        final(dir)@.wf(),
        overwrite_post(reg@, old(dir)@, final(dir)@, r, caller, private_overwrites(
            guild_id,
            bot_id,
        )),
{
    let c = match resolve_temporary(reg, dir, caller) {
        Ok(c) => c,
        Err(e) => {
            return Err(e);
        },
    };
    proof {
        lemma_gate_resolves(reg@, dir@, caller, c);
    }
    let mut overwrites: Vec<PermissionOverwrite> = Vec::new();
    overwrites.push(
        PermissionOverwrite {
            allow: 0,
            deny: CONNECT_PERMISSION,
            target: OverwriteTarget::Role(guild_id),
        },
    );
    overwrites.push(
        PermissionOverwrite {
            allow: CONNECT_PERMISSION,
            deny: 0,
            target: OverwriteTarget::Member(bot_id),
        },
    );
    proof {
        assert(overwrites@ =~= private_overwrites(guild_id, bot_id));
    }
    dir.edit_overwrites(c, overwrites);
    Ok(())
}

/// Make the caller's Temporary channel public again: a neutral overwrite
/// for the default role.
pub fn public(reg: &Registry, dir: &mut DirectorySnapshot, caller: i64, guild_id: i64) -> (r:
    Result<(), OrchestratorError>)
    requires
        old(dir)@.wf(),
    ensures
        final(dir)@.wf(),
        overwrite_post(reg@, old(dir)@, final(dir)@, r, caller, public_overwrites(guild_id)),
{
    let c = match resolve_temporary(reg, dir, caller) {
        Ok(c) => c,
        Err(e) => {
            return Err(e);
        },
    };
    proof {
        lemma_gate_resolves(reg@, dir@, caller, c);
    }
    let mut overwrites: Vec<PermissionOverwrite> = Vec::new();
    overwrites.push(PermissionOverwrite { allow: 0, deny: 0, target: OverwriteTarget::Role(guild_id) });
    proof {
        assert(overwrites@ =~= public_overwrites(guild_id));
    }
    dir.edit_overwrites(c, overwrites);
    Ok(())
}

/// Is a requested occupancy cap acceptable at the command surface? The
/// bound is enforced before the handler is ever reached.
pub fn limit_accepted(number: u64) -> (r: bool)
    ensures
        r == (1 <= number <= 99),
{
    1 <= number && number <= 99
}

/// Cap the occupancy of the caller's Temporary channel. The surface has
/// already constrained `number` to [1, 99].
pub fn limit(reg: &Registry, dir: &mut DirectorySnapshot, caller: i64, number: u64) -> (r: Result<
    (),
    OrchestratorError,
>)
    requires
        old(dir)@.wf(),
        1 <= number <= 99,
    ensures
        final(dir)@.wf(),
        limit_post(reg@, old(dir)@, final(dir)@, r, caller, number),
{
    let c = match resolve_temporary(reg, dir, caller) {
        Ok(c) => c,
        Err(e) => {
            return Err(e);
        },
    };
    proof {
        lemma_gate_resolves(reg@, dir@, caller, c);
    }
    dir.edit_user_limit(c, number);
    Ok(())
}

/// Remove the occupancy cap of the caller's Temporary channel (0 =
/// unlimited).
pub fn unlimit(reg: &Registry, dir: &mut DirectorySnapshot, caller: i64) -> (r: Result<
    (),
    OrchestratorError,
>)
    requires
        old(dir)@.wf(),
    ensures
        final(dir)@.wf(),
        limit_post(reg@, old(dir)@, final(dir)@, r, caller, 0),
{
    let c = match resolve_temporary(reg, dir, caller) {
        Ok(c) => c,
        Err(e) => {
            return Err(e);
        },
    };
    proof {
        lemma_gate_resolves(reg@, dir@, caller, c);
    }
    dir.edit_user_limit(c, 0);
    Ok(())
}

/// A channel that passes the shared Temporary requirement is listed by
/// the directory: the resolution step found it there.
proof fn lemma_gate_resolves(reg: RegView, dir: DirView, caller: i64, c: i64)
    requires
        gate(reg, dir, caller) == Ok::<i64, OrchestratorError>(c),
    ensures
        dir.has_channel(c),
        reg.temporaries.contains(c),
{
    let i = resolved_index(dir, caller).unwrap();
    lemma_resolved_in_range(dir, caller, 0);
    assert(dir.channels[i].id == c);
}

/// A resolved position is a real position of the channel sequence.
proof fn lemma_resolved_in_range(dir: DirView, m: i64, i: int)
    requires
        0 <= i,
    ensures
        match resolved_from(dir, m, i) {
            Some(j) => i <= j < dir.channels.len() && dir.channels[j].is_voice
                && dir.channels[j].occupants.contains(m),
            None => true,
        },
    decreases dir.channels.len() - i,
{
    if i < dir.channels.len() {
        if !(dir.channels[i].is_voice && dir.channels[i].occupants.contains(m)) {
            lemma_resolved_in_range(dir, m, i + 1);
        }
    }
}

} // verus!
