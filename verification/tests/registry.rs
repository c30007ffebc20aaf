//! The registry alone: insertion, lookup, idempotent deletion, and the
//! one-id-one-classification invariant.

use auto_voice::registry::{ChannelKind, PrimaryChannel, Registry, RegistryError, TemporaryChannel};

#[test]
fn insert_then_lookup() {
    let mut reg = Registry::new();
    assert_eq!(PrimaryChannel::insert(10, &mut reg), Ok(()));
    assert!(PrimaryChannel::record_exists(10, &reg));
    assert!(!TemporaryChannel::record_exists(10, &reg));
    assert!(!PrimaryChannel::record_exists(11, &reg));
}

#[test]
fn duplicate_insert_fails_and_changes_nothing() {
    let mut reg = Registry::new();
    assert_eq!(PrimaryChannel::insert(10, &mut reg), Ok(()));
    assert_eq!(
        PrimaryChannel::insert(10, &mut reg),
        Err(RegistryError::DuplicateRecord)
    );
    // The same id cannot enter the other classification either.
    assert_eq!(
        TemporaryChannel::insert(10, &mut reg),
        Err(RegistryError::DuplicateRecord)
    );
    assert_eq!(reg.primaries, vec![10]);
    assert_eq!(reg.temporaries, Vec::<i64>::new());
}

#[test]
fn one_id_one_classification() {
    let mut reg = Registry::new();
    assert_eq!(TemporaryChannel::insert(42, &mut reg), Ok(()));
    assert!(TemporaryChannel::record_exists(42, &reg));
    assert!(!PrimaryChannel::record_exists(42, &reg));
    assert_eq!(reg.insert(42, ChannelKind::Primary), Err(RegistryError::DuplicateRecord));
    assert!(!PrimaryChannel::record_exists(42, &reg));
}

#[test]
fn deregistration_is_idempotent() {
    let mut reg = Registry::new();
    assert_eq!(TemporaryChannel::insert(7, &mut reg), Ok(()));
    TemporaryChannel::delete(7, &mut reg);
    assert!(!TemporaryChannel::record_exists(7, &reg));
    let after_first = reg.temporaries.clone();
    // A second deletion of the same id is a no-op, not an error.
    TemporaryChannel::delete(7, &mut reg);
    assert_eq!(reg.temporaries, after_first);
    assert_eq!(reg.temporaries, Vec::<i64>::new());
}

#[test]
fn delete_of_absent_id_is_a_no_op() {
    let mut reg = Registry::new();
    assert_eq!(PrimaryChannel::insert(1, &mut reg), Ok(()));
    TemporaryChannel::delete(1, &mut reg);
    // Deleting under the other classification leaves the record alone.
    assert!(PrimaryChannel::record_exists(1, &reg));
    reg.delete(99, ChannelKind::Primary);
    assert_eq!(reg.primaries, vec![1]);
}

#[test]
fn delete_only_touches_its_id() {
    let mut reg = Registry::new();
    assert_eq!(TemporaryChannel::insert(1, &mut reg), Ok(()));
    assert_eq!(TemporaryChannel::insert(2, &mut reg), Ok(()));
    assert_eq!(TemporaryChannel::insert(3, &mut reg), Ok(()));
    TemporaryChannel::delete(2, &mut reg);
    assert!(TemporaryChannel::record_exists(1, &reg));
    assert!(!TemporaryChannel::record_exists(2, &reg));
    assert!(TemporaryChannel::record_exists(3, &reg));
}
