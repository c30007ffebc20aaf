//! The event router and the two lifecycle handlers, run against the
//! directory model: spawning on a Primary join, reclaiming on a Temporary
//! leave, and the router's swallow-both-outcomes contract.

use auto_voice::commands;
use auto_voice::directory::DirectorySnapshot;
use auto_voice::errors::OrchestratorError;
use auto_voice::events::{ingest, GatewayEvent, MembershipChange, VoiceState};
use auto_voice::orchestrator::{
    update_channels, voice_join_handler, voice_leave_handler,
};
use auto_voice::registry::{PrimaryChannel, Registry, TemporaryChannel};

fn state(guild: Option<i64>, channel: Option<i64>, member: Option<i64>) -> VoiceState {
    VoiceState { guild_id: guild, channel_id: channel, member_id: member }
}

#[test]
fn join_into_primary_spawns_temporary_and_relocates() {
    let mut reg = Registry::new();
    let mut dir = DirectorySnapshot::new();
    assert_eq!(commands::create(&mut reg, &mut dir), Ok(1));
    dir.move_member(7, 1);

    let r = voice_join_handler(&mut reg, &mut dir, &state(Some(5), Some(1), Some(7)));
    assert_eq!(r, Ok(()));
    // Exactly one new channel, registered Temporary, holding the member.
    assert_eq!(dir.channels.len(), 2);
    assert_eq!(dir.channels[1].id, 2);
    assert_eq!(dir.channels[1].name, "[General]");
    assert!(dir.channels[1].is_voice);
    assert_eq!(dir.channels[1].occupants, vec![7]);
    assert_eq!(dir.channels[0].occupants, Vec::<i64>::new());
    assert!(TemporaryChannel::record_exists(2, &reg));
    assert!(!PrimaryChannel::record_exists(2, &reg));
}

#[test]
fn temporary_inherits_primary_grouping() {
    let mut reg = Registry::new();
    let mut dir = DirectorySnapshot::new();
    let category = dir.create_voice_channel(String::from("sessions"), None, Vec::new());
    let p = dir.create_voice_channel(String::from("entry"), Some(category), Vec::new());
    assert_eq!(PrimaryChannel::insert(p, &mut reg), Ok(()));

    let r = voice_join_handler(&mut reg, &mut dir, &state(Some(5), Some(p), Some(7)));
    assert_eq!(r, Ok(()));
    assert_eq!(dir.channels[2].parent_id, Some(category));
}

#[test]
fn join_without_channel_is_a_no_op() {
    let mut reg = Registry::new();
    let mut dir = DirectorySnapshot::new();
    let r = voice_join_handler(&mut reg, &mut dir, &state(Some(5), None, Some(7)));
    assert_eq!(r, Ok(()));
    assert_eq!(dir.channels.len(), 0);
    assert_eq!(reg.temporaries, Vec::<i64>::new());
}

#[test]
fn join_into_unmanaged_channel_is_a_no_op() {
    let mut reg = Registry::new();
    let mut dir = DirectorySnapshot::new();
    let c = dir.create_voice_channel(String::from("free"), None, Vec::new());
    let r = voice_join_handler(&mut reg, &mut dir, &state(Some(5), Some(c), Some(7)));
    assert_eq!(r, Ok(()));
    assert_eq!(dir.channels.len(), 1);
    assert_eq!(reg.temporaries, Vec::<i64>::new());
}

#[test]
fn join_without_guild_context_fails() {
    let mut reg = Registry::new();
    let mut dir = DirectorySnapshot::new();
    assert_eq!(commands::create(&mut reg, &mut dir), Ok(1));
    let r = voice_join_handler(&mut reg, &mut dir, &state(None, Some(1), Some(7)));
    assert_eq!(r, Err(OrchestratorError::NotInGuildContext));
    assert_eq!(dir.channels.len(), 1);
}

#[test]
fn join_into_unlisted_primary_fails_as_directory_error() {
    let mut reg = Registry::new();
    let mut dir = DirectorySnapshot::new();
    // A Primary record whose channel the platform no longer lists.
    assert_eq!(PrimaryChannel::insert(1, &mut reg), Ok(()));
    let r = voice_join_handler(&mut reg, &mut dir, &state(Some(5), Some(1), Some(7)));
    assert_eq!(r, Err(OrchestratorError::DirectoryOperationFailed));
    assert_eq!(dir.channels.len(), 0);
}

#[test]
fn join_without_member_leaves_channel_registered_but_unmoved() {
    let mut reg = Registry::new();
    let mut dir = DirectorySnapshot::new();
    assert_eq!(commands::create(&mut reg, &mut dir), Ok(1));
    let r = voice_join_handler(&mut reg, &mut dir, &state(Some(5), Some(1), None));
    // The recognized inconsistency window: created and registered, nobody moved.
    assert_eq!(r, Err(OrchestratorError::MalformedNotification));
    assert_eq!(dir.channels.len(), 2);
    assert!(TemporaryChannel::record_exists(2, &reg));
    assert_eq!(dir.channels[1].occupants, Vec::<i64>::new());
}

#[test]
fn leave_from_empty_temporary_reclaims_it() {
    let mut reg = Registry::new();
    let mut dir = DirectorySnapshot::new();
    let t = dir.create_voice_channel(String::from("[General]"), None, Vec::new());
    assert_eq!(TemporaryChannel::insert(t, &mut reg), Ok(()));

    let r = voice_leave_handler(&mut reg, &mut dir, &state(Some(5), Some(t), Some(7)));
    assert_eq!(r, Ok(()));
    assert!(!dir.contains_channel(t));
    assert!(!TemporaryChannel::record_exists(t, &reg));
}

#[test]
fn leave_from_occupied_temporary_changes_nothing() {
    let mut reg = Registry::new();
    let mut dir = DirectorySnapshot::new();
    let t = dir.create_voice_channel(String::from("[General]"), None, Vec::new());
    assert_eq!(TemporaryChannel::insert(t, &mut reg), Ok(()));
    dir.move_member(8, t);

    let r = voice_leave_handler(&mut reg, &mut dir, &state(Some(5), Some(t), Some(7)));
    assert_eq!(r, Ok(()));
    // Another member is still present: neither deletion nor deregistration.
    assert!(dir.contains_channel(t));
    assert!(TemporaryChannel::record_exists(t, &reg));
    assert_eq!(dir.channels[0].occupants, vec![8]);
}

#[test]
fn leave_from_unmanaged_channel_is_a_no_op() {
    let mut reg = Registry::new();
    let mut dir = DirectorySnapshot::new();
    let c = dir.create_voice_channel(String::from("free"), None, Vec::new());
    let r = voice_leave_handler(&mut reg, &mut dir, &state(Some(5), Some(c), Some(7)));
    assert_eq!(r, Ok(()));
    assert!(dir.contains_channel(c));
}

#[test]
fn leave_without_guild_context_fails() {
    let mut reg = Registry::new();
    let mut dir = DirectorySnapshot::new();
    let t = dir.create_voice_channel(String::from("[General]"), None, Vec::new());
    assert_eq!(TemporaryChannel::insert(t, &mut reg), Ok(()));
    let r = voice_leave_handler(&mut reg, &mut dir, &state(None, Some(t), Some(7)));
    assert_eq!(r, Err(OrchestratorError::NotInGuildContext));
    assert!(dir.contains_channel(t));
}

#[test]
fn leave_without_origin_channel_is_surfaced() {
    let mut reg = Registry::new();
    let mut dir = DirectorySnapshot::new();
    let r = voice_leave_handler(&mut reg, &mut dir, &state(Some(5), None, Some(7)));
    assert_eq!(r, Err(OrchestratorError::MalformedNotification));
}

#[test]
fn router_runs_both_paths_and_swallows_failures() {
    let mut reg = Registry::new();
    let mut dir = DirectorySnapshot::new();
    // The previous state is malformed (no origin channel): the leave path
    // fails, but the router still reports success.
    let previous = Some(state(Some(5), None, Some(7)));
    let current = state(Some(5), None, Some(7));
    assert_eq!(update_channels(&mut reg, &mut dir, &previous, &current), Ok(()));
}

#[test]
fn router_handles_a_move_between_two_managed_channels() {
    let mut reg = Registry::new();
    let mut dir = DirectorySnapshot::new();
    // A Temporary channel the member is leaving, now empty...
    let t = dir.create_voice_channel(String::from("[General]"), None, Vec::new());
    assert_eq!(TemporaryChannel::insert(t, &mut reg), Ok(()));
    // ...and a Primary channel the member just joined.
    let p = commands::create(&mut reg, &mut dir).unwrap();
    dir.move_member(7, p);

    let previous = Some(state(Some(5), Some(t), Some(7)));
    let current = state(Some(5), Some(p), Some(7));
    assert_eq!(update_channels(&mut reg, &mut dir, &previous, &current), Ok(()));
    // The join reaction spawned a new Temporary sibling and moved the member;
    // the leave reaction reclaimed the emptied old one.
    assert!(!dir.contains_channel(t));
    assert!(!TemporaryChannel::record_exists(t, &reg));
    let spawned_id = dir.channels[dir.channels.len() - 1].id;
    assert!(TemporaryChannel::record_exists(spawned_id, &reg));
    assert_eq!(
        dir.channels[dir.channels.len() - 1].occupants,
        vec![7]
    );
}

#[test]
fn concurrent_joins_on_different_primaries_do_not_interfere() {
    let mut reg = Registry::new();
    let mut dir = DirectorySnapshot::new();
    let p1 = commands::create(&mut reg, &mut dir).unwrap();
    let p2 = commands::create(&mut reg, &mut dir).unwrap();

    assert_eq!(
        voice_join_handler(&mut reg, &mut dir, &state(Some(5), Some(p1), Some(7))),
        Ok(())
    );
    assert_eq!(
        voice_join_handler(&mut reg, &mut dir, &state(Some(5), Some(p2), Some(8))),
        Ok(())
    );

    // Each join spawned its own sibling and moved only its own member.
    assert_eq!(dir.channels.len(), 4);
    let t1 = &dir.channels[2];
    let t2 = &dir.channels[3];
    assert_eq!(t1.occupants, vec![7]);
    assert_eq!(t2.occupants, vec![8]);
    assert!(TemporaryChannel::record_exists(t1.id, &reg));
    assert!(TemporaryChannel::record_exists(t2.id, &reg));
    assert!(PrimaryChannel::record_exists(p1, &reg));
    assert!(PrimaryChannel::record_exists(p2, &reg));
}

#[test]
fn ingestion_forwards_only_membership_changes() {
    let current = state(Some(5), Some(1), Some(7));
    let event = GatewayEvent::VoiceStateUpdate { previous: None, current };
    let change: Option<MembershipChange> = ingest(&event);
    let change = change.expect("a membership change must be forwarded");
    assert!(change.previous.is_none());
    assert_eq!(change.current.channel_id, Some(1));
    assert!(ingest(&GatewayEvent::Unhandled).is_none());
}
