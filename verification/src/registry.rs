//! The channel registry: the durable mapping from channel id to its
//! classification (Primary or Temporary). The registry is the single source
//! of truth for "is this channel managed, and as what"; its invariant is
//! that a given id appears in at most one classification at a time.

use vstd::prelude::*;

verus! {

/// Classification of a managed channel.
///
/// A Primary channel is a manually provisioned, persistent entry point;
/// a Temporary channel is auto-created when a member joins a Primary one
/// and auto-deleted when it empties.
#[derive(Clone, Copy, PartialEq, Eq, Structural, Debug)]
pub enum ChannelKind {
    Primary,
    Temporary,
}

/// The registry's only failure: inserting an id that is already managed.
#[derive(Clone, Copy, PartialEq, Eq, Structural, Debug)]
pub enum RegistryError {
    DuplicateRecord,
}

/// Mathematical model of the registry: the set of ids registered Primary
/// and the set of ids registered Temporary.
#[verifier::ext_equal]
pub struct RegView {
    pub primaries: Set<i64>,
    pub temporaries: Set<i64>,
}

impl RegView {
    /// Is `id` managed at all, under either classification?
    pub open spec fn contains(self, id: i64) -> bool {
        self.primaries.contains(id) || self.temporaries.contains(id)
    }

    /// Is `id` registered under exactly the classification `kind`?
    pub open spec fn of_kind(self, id: i64, kind: ChannelKind) -> bool {
        match kind {
            ChannelKind::Primary => self.primaries.contains(id),
            ChannelKind::Temporary => self.temporaries.contains(id),
        }
    }

    /// The registry after recording `id` under `kind`.
    pub open spec fn record(self, id: i64, kind: ChannelKind) -> RegView {
        match kind {
            ChannelKind::Primary => RegView {
                primaries: self.primaries.insert(id),
                ..self
            },
            ChannelKind::Temporary => RegView {
                temporaries: self.temporaries.insert(id),
                ..self
            },
        }
    }

    /// The registry after erasing `id` from the classification `kind`.
    pub open spec fn erase(self, id: i64, kind: ChannelKind) -> RegView {
        match kind {
            ChannelKind::Primary => RegView {
                primaries: self.primaries.remove(id),
                ..self
            },
            ChannelKind::Temporary => RegView {
                temporaries: self.temporaries.remove(id),
                ..self
            },
        }
    }

    /// One id, at most one classification.
    pub open spec fn wf(self) -> bool {
        forall|id: i64| !(self.primaries.contains(id) && self.temporaries.contains(id))
    }
}

/// The persisted registry: two id tables, one per classification, with row
/// presence as the only signal.
pub struct Registry {
    pub primaries: Vec<i64>,
    pub temporaries: Vec<i64>,
}

impl View for Registry {
    type V = RegView;

    open spec fn view(&self) -> RegView {
        RegView {
            primaries: Set::new(|id: i64| self.primaries@.contains(id)),
            temporaries: Set::new(|id: i64| self.temporaries@.contains(id)),
        }
    }
}

/// Does the id vector hold `id`? A row lookup by primary key.
fn table_contains(table: &Vec<i64>, id: i64) -> (r: bool)
    ensures
        r == table@.contains(id),
{
    let mut i: usize = 0;
    while i < table.len()
        invariant
            i <= table@.len(),
            forall|j: int| 0 <= j < i ==> table@[j] != id,
        decreases table@.len() - i,
    {
        if table[i] == id {
            return true;
        }
        i = i + 1;
    }
    false
}

/// Remove the row holding `id`, if any, from the id vector.
fn table_remove(table: &mut Vec<i64>, id: i64)
    requires
        old(table)@.no_duplicates(),
    ensures
        final(table)@.no_duplicates(),
        forall|x: i64| #[trigger] final(table)@.contains(x) <==> (old(table)@.contains(x)
            && x != id),
{
    let mut kept: Vec<i64> = Vec::new();
    let mut i: usize = 0;
    while i < table.len()
        invariant
            i <= table@.len(),
            table@.no_duplicates(),
            forall|x: i64| #[trigger] kept@.contains(x) <==> (table@.subrange(0, i as int)
                .contains(x) && x != id),
            kept@.no_duplicates(),
        decreases table@.len() - i,
    {
        let ghost seen = table@.subrange(0, i as int);
        let row = table[i];
        proof {
            assert(!kept@.contains(row)) by {
                if seen.contains(row) {
                    let k = choose|k: int| 0 <= k < seen.len() && seen[k] == row;
                    assert(table@[k] == table@[i as int]);
                }
            }
        }
        if row != id {
            kept.push(row);
        }
        i = i + 1;
        proof {
            broadcast use vstd::seq_lib::lemma_seq_contains_after_push;

            assert(table@.subrange(0, i as int) =~= seen.push(row));
        }
    }
    proof {
        assert(table@.subrange(0, table@.len() as int) =~= table@);
    }
    *table = kept;
}

impl Registry {
    /// Each table is free of duplicate rows (id is a primary key), and no id
    /// stands in both classifications at once.
    pub open spec fn wf(self) -> bool {
        &&& self.primaries@.no_duplicates()
        &&& self.temporaries@.no_duplicates()
        &&& self@.wf()
    }

    /// An empty registry: nothing is managed.
    pub fn new() -> (r: Registry)
        ensures
            r.wf(),
            r@.primaries =~= Set::<i64>::empty(),
            r@.temporaries =~= Set::<i64>::empty(),
    {
        let r = Registry { primaries: Vec::new(), temporaries: Vec::new() };
        proof {
            assert(r@.primaries =~= Set::<i64>::empty());
            assert(r@.temporaries =~= Set::<i64>::empty());
        }
        r
    }

    /// Persist a new record for `id` under `kind`.
    ///
    /// Fails with `DuplicateRecord`, changing nothing, if `id` is already
    /// present under either classification: success would break the
    /// one-id-one-classification invariant.
    pub fn insert(&mut self, id: i64, kind: ChannelKind) -> (r: Result<(), RegistryError>)
        requires
            old(self).wf(),
        ensures
            final(self).wf(),
            old(self)@.contains(id) ==> r == Err::<(), RegistryError>(RegistryError::DuplicateRecord)
                && final(self)@ =~= old(self)@,
            !old(self)@.contains(id) ==> r == Ok::<(), RegistryError>(()) && final(self)@
                =~= old(self)@.record(id, kind),
    {
        if table_contains(&self.primaries, id) || table_contains(&self.temporaries, id) {
            return Err(RegistryError::DuplicateRecord);
        }
        match kind {
            ChannelKind::Primary => {
                self.primaries.push(id);
                proof {
                    broadcast use vstd::seq_lib::lemma_seq_contains_after_push;

                    assert(self@.primaries =~= old(self)@.primaries.insert(id));
                    assert(self@.temporaries =~= old(self)@.temporaries);
                }
            },
            ChannelKind::Temporary => {
                self.temporaries.push(id);
                proof {
                    broadcast use vstd::seq_lib::lemma_seq_contains_after_push;

                    assert(self@.temporaries =~= old(self)@.temporaries.insert(id));
                    assert(self@.primaries =~= old(self)@.primaries);
                }
            },
        }
        Ok(())
    }

    /// Answer, without side effects, whether `id` is registered under `kind`.
    pub fn record_exists(&self, id: i64, kind: ChannelKind) -> (r: bool)
        ensures
            r == self@.of_kind(id, kind),
    {
        match kind {
            ChannelKind::Primary => table_contains(&self.primaries, id),
            ChannelKind::Temporary => table_contains(&self.temporaries, id),
        }
    }

    /// Remove the record for `id` under `kind`; a no-op, not an error, if it
    /// is absent. Deletion must be idempotent because the leave path may run
    /// more than once for the same emptied channel under redelivery.
    pub fn delete(&mut self, id: i64, kind: ChannelKind)
        requires
            old(self).wf(),
        ensures
            final(self).wf(),
            final(self)@ =~= old(self)@.erase(id, kind),
    {
        match kind {
            ChannelKind::Primary => {
                table_remove(&mut self.primaries, id);
                proof {
                    assert(self@.primaries =~= old(self)@.primaries.remove(id));
                    assert(self@.temporaries =~= old(self)@.temporaries);
                }
            },
            ChannelKind::Temporary => {
                table_remove(&mut self.temporaries, id);
                proof {
                    assert(self@.temporaries =~= old(self)@.temporaries.remove(id));
                    assert(self@.primaries =~= old(self)@.primaries);
                }
            },
        }
    }
}

/// A row of the Primary table: a managed entry-point channel.
#[derive(Clone, Copy, PartialEq, Eq, Structural, Debug)]
pub struct PrimaryChannel {
    pub id: i64,
}

impl PrimaryChannel {
    /// Persist `id` as a Primary channel.
    pub fn insert(id: i64, reg: &mut Registry) -> (r: Result<(), RegistryError>)
        requires
            old(reg).wf(),
        ensures
            final(reg).wf(),
            old(reg)@.contains(id) ==> r == Err::<(), RegistryError>(RegistryError::DuplicateRecord)
                && final(reg)@ =~= old(reg)@,
            !old(reg)@.contains(id) ==> r == Ok::<(), RegistryError>(()) && final(reg)@
                =~= old(reg)@.record(id, ChannelKind::Primary),
    {
        reg.insert(id, ChannelKind::Primary)
    }

    /// Is `id` registered Primary?
    pub fn record_exists(id: i64, reg: &Registry) -> (r: bool)
        ensures
            r == reg@.of_kind(id, ChannelKind::Primary),
    {
        reg.record_exists(id, ChannelKind::Primary)
    }
}

/// A row of the Temporary table: an auto-created, reclaimable channel.
#[derive(Clone, Copy, PartialEq, Eq, Structural, Debug)]
pub struct TemporaryChannel {
    pub id: i64,
}

impl TemporaryChannel {
    /// Persist `id` as a Temporary channel.
    pub fn insert(id: i64, reg: &mut Registry) -> (r: Result<(), RegistryError>)
        requires
            old(reg).wf(),
        ensures
            final(reg).wf(),
            old(reg)@.contains(id) ==> r == Err::<(), RegistryError>(RegistryError::DuplicateRecord)
                && final(reg)@ =~= old(reg)@,
            !old(reg)@.contains(id) ==> r == Ok::<(), RegistryError>(()) && final(reg)@
                =~= old(reg)@.record(id, ChannelKind::Temporary),
    {
        reg.insert(id, ChannelKind::Temporary)
    }

    /// Erase `id` from the Temporary table; idempotent.
    pub fn delete(id: i64, reg: &mut Registry)
        requires
            old(reg).wf(),
        ensures
            final(reg).wf(),
            final(reg)@ =~= old(reg)@.erase(id, ChannelKind::Temporary),
    {
        reg.delete(id, ChannelKind::Temporary)
    }

    /// Is `id` registered Temporary?
    pub fn record_exists(id: i64, reg: &Registry) -> (r: bool)
        ensures
            r == reg@.of_kind(id, ChannelKind::Temporary),
    {
        reg.record_exists(id, ChannelKind::Temporary)
    }
}

} // verus!
