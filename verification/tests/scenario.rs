//! The full lifecycle, end to end: a member joins the Primary entry
//! channel, gets a Temporary room, leaves it, and the room is reclaimed.

use auto_voice::commands::{create, rename};
use auto_voice::directory::DirectorySnapshot;
use auto_voice::errors::OrchestratorError;
use auto_voice::events::VoiceState;
use auto_voice::orchestrator::update_channels;
use auto_voice::registry::{Registry, TemporaryChannel};

#[test]
fn join_leave_rename_lifecycle() {
    let mut reg = Registry::new();
    let mut dir = DirectorySnapshot::new();

    // A Primary entry channel P is provisioned and registered.
    let p = create(&mut reg, &mut dir).unwrap();

    // Member A joins P: the platform notifies, the system creates channel
    // T, registers it Temporary, and moves A into it.
    dir.move_member(7, p);
    let joined = VoiceState { guild_id: Some(5), channel_id: Some(p), member_id: Some(7) };
    assert_eq!(update_channels(&mut reg, &mut dir, &None, &joined), Ok(()));

    let t = dir.channels[dir.channels.len() - 1].id;
    assert_ne!(t, p);
    assert!(TemporaryChannel::record_exists(t, &reg));
    assert_eq!(dir.channels[dir.channels.len() - 1].occupants, vec![7]);

    // Member A then leaves T, which now stands empty: the system deletes T
    // and removes its registry record.
    dir.disconnect_member(7);
    let left = VoiceState { guild_id: Some(5), channel_id: Some(t), member_id: Some(7) };
    let disconnected = VoiceState { guild_id: Some(5), channel_id: None, member_id: Some(7) };
    assert_eq!(
        update_channels(&mut reg, &mut dir, &Some(left), &disconnected),
        Ok(())
    );
    assert!(!dir.contains_channel(t));
    assert!(!TemporaryChannel::record_exists(t, &reg));

    // A rename issued now fails: the channel no longer exists and A is no
    // longer resolved to any voice channel.
    assert_eq!(
        rename(&reg, &mut dir, 7, &String::from("late")),
        Err(OrchestratorError::NotInVoiceChannel)
    );
}
