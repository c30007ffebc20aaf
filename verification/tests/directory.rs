//! The directory model itself: creation, lookup, occupancy, relocation,
//! and deletion.

use auto_voice::directory::DirectorySnapshot;

#[test]
fn created_channels_get_fresh_increasing_ids() {
    let mut dir = DirectorySnapshot::new();
    let a = dir.create_voice_channel(String::from("a"), None, Vec::new());
    let b = dir.create_voice_channel(String::from("b"), None, Vec::new());
    assert_eq!(a, 1);
    assert_eq!(b, 2);
    assert!(dir.contains_channel(a));
    assert!(dir.contains_channel(b));
    assert!(!dir.contains_channel(3));
    assert_eq!(dir.parent_of(a), None);
}

#[test]
fn occupant_count_reads_fresh_state() {
    let mut dir = DirectorySnapshot::new();
    let a = dir.create_voice_channel(String::from("a"), None, Vec::new());
    assert_eq!(dir.occupant_count(a), Some(0));
    dir.move_member(7, a);
    dir.move_member(8, a);
    assert_eq!(dir.occupant_count(a), Some(2));
    dir.disconnect_member(7);
    assert_eq!(dir.occupant_count(a), Some(1));
    assert_eq!(dir.occupant_count(99), None);
}

#[test]
fn move_member_leaves_exactly_one_occupancy() {
    let mut dir = DirectorySnapshot::new();
    let a = dir.create_voice_channel(String::from("a"), None, Vec::new());
    let b = dir.create_voice_channel(String::from("b"), None, Vec::new());
    dir.move_member(7, a);
    dir.move_member(7, b);
    assert_eq!(dir.channels[0].occupants, Vec::<i64>::new());
    assert_eq!(dir.channels[1].occupants, vec![7]);
}

#[test]
fn delete_channel_unlists_it() {
    let mut dir = DirectorySnapshot::new();
    let a = dir.create_voice_channel(String::from("a"), None, Vec::new());
    let b = dir.create_voice_channel(String::from("b"), None, Vec::new());
    dir.delete_channel(a);
    assert!(!dir.contains_channel(a));
    assert!(dir.contains_channel(b));
    // Deleting again, or deleting the unknown, is a no-op.
    dir.delete_channel(a);
    dir.delete_channel(99);
    assert_eq!(dir.channels.len(), 1);
}
