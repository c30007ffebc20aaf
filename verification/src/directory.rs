//! A model of the platform's channel directory: the live view of a guild's
//! channels and their occupants, together with the mutations the directory
//! client exposes (create, edit, delete, relocate). The orchestrator never
//! caches this view; every decision is made against a fresh snapshot, and
//! every mutation the handlers decide on is stated here exactly.

use vstd::prelude::*;

verus! {

/// The permission bit that lets a member connect to a voice channel.
pub const CONNECT_PERMISSION: u64 = 0x0010_0000;

/// Whom a permission overwrite applies to: a role of the guild, or one
/// member.
#[derive(Clone, Copy, PartialEq, Eq, Structural, Debug)]
pub enum OverwriteTarget {
    Role(i64),
    Member(i64),
}

/// One permission overwrite on a channel: bits explicitly allowed and bits
/// explicitly denied for the target.
#[derive(Clone, Copy, PartialEq, Eq, Structural, Debug)]
pub struct PermissionOverwrite {
    pub allow: u64,
    pub deny: u64,
    pub target: OverwriteTarget,
}

/// Mathematical model of one channel of the directory.
#[verifier::ext_equal]
pub struct ChannelView {
    pub id: i64,
    pub is_voice: bool,
    pub name: Seq<char>,
    pub parent_id: Option<i64>,
    pub occupants: Seq<i64>,
    pub overwrites: Seq<PermissionOverwrite>,
    pub user_limit: u64,
}

impl ChannelView {
    /// The same channel with another name.
    pub open spec fn with_name(self, name: Seq<char>) -> ChannelView {
        ChannelView { name, ..self }
    }

    /// The same channel with its permission overwrites replaced.
    pub open spec fn with_overwrites(self, overwrites: Seq<PermissionOverwrite>) -> ChannelView {
        ChannelView { overwrites, ..self }
    }

    /// The same channel with another occupancy cap (0 = unlimited).
    pub open spec fn with_user_limit(self, user_limit: u64) -> ChannelView {
        ChannelView { user_limit, ..self }
    }
}

/// Mathematical model of the directory: the guild's channels, in the order
/// the platform lists them, and the next identifier the platform will hand
/// out.
#[verifier::ext_equal]
pub struct DirView {
    pub channels: Seq<ChannelView>,
    pub next_id: i64,
}

impl DirView {
    /// Channel identifiers are unique, and every identifier was handed out
    /// before `next_id`: a created channel's id is always fresh.
    pub open spec fn wf(self) -> bool {
        &&& 0 <= self.next_id
        &&& forall|i: int, j: int|
            0 <= i < self.channels.len() && 0 <= j < self.channels.len() && i != j
                ==> #[trigger] self.channels[i].id != #[trigger] self.channels[j].id
        &&& forall|i: int|
            0 <= i < self.channels.len() ==> 0 <= #[trigger] self.channels[i].id < self.next_id
    }

    /// Does the directory list a channel with this id?
    pub open spec fn has_channel(self, id: i64) -> bool {
        exists|i: int| 0 <= i < self.channels.len() && #[trigger] self.channels[i].id == id
    }

    /// The position of the channel with this id.
    pub open spec fn index_of(self, id: i64) -> int {
        choose|i: int| 0 <= i < self.channels.len() && #[trigger] self.channels[i].id == id
    }

    /// The channel with this id.
    pub open spec fn channel(self, id: i64) -> ChannelView {
        self.channels[self.index_of(id)]
    }

    /// The directory after the channel with this id was replaced by `c`;
    /// unchanged if no channel has the id.
    pub open spec fn update_channel(self, id: i64, c: ChannelView) -> DirView {
        if self.has_channel(id) {
            DirView { channels: self.channels.update(self.index_of(id), c), ..self }
        } else {
            self
        }
    }

    /// The directory after the channel with this id was deleted; unchanged
    /// if no channel has the id.
    pub open spec fn remove_channel(self, id: i64) -> DirView {
        if self.has_channel(id) {
            DirView { channels: self.channels.remove(self.index_of(id)), ..self }
        } else {
            self
        }
    }
}

/// A channel as the directory model carries it.
pub struct DirectoryChannel {
    pub id: i64,
    pub is_voice: bool,
    pub name: String,
    pub parent_id: Option<i64>,
    pub occupants: Vec<i64>,
    pub overwrites: Vec<PermissionOverwrite>,
    pub user_limit: u64,
}

impl View for DirectoryChannel {
    type V = ChannelView;

    open spec fn view(&self) -> ChannelView {
        ChannelView {
            id: self.id,
            is_voice: self.is_voice,
            name: self.name@,
            parent_id: self.parent_id,
            occupants: self.occupants@,
            overwrites: self.overwrites@,
            user_limit: self.user_limit,
        }
    }
}

/// The directory model itself.
pub struct DirectorySnapshot {
    pub channels: Vec<DirectoryChannel>,
    pub next_id: i64,
}

impl View for DirectorySnapshot {
    type V = DirView;

    open spec fn view(&self) -> DirView {
        DirView {
            channels: self.channels@.map_values(|c: DirectoryChannel| c@),
            next_id: self.next_id,
        }
    }
}

/// The channel a creation request yields: a fresh voice channel, empty and
/// uncapped, with the requested name, grouping, and initial overwrites.
pub open spec fn fresh_channel(
    id: i64,
    name: Seq<char>,
    parent_id: Option<i64>,
    overwrites: Seq<PermissionOverwrite>,
) -> ChannelView {
    ChannelView {
        id,
        is_voice: true,
        name,
        parent_id,
        occupants: Seq::empty(),
        overwrites,
        user_limit: 0,
    }
}

/// Channels `pre` and `post` agree except that in `post` the member `m` is
/// present exactly when the channel is the relocation target `to`.
pub open spec fn relocated(pre: ChannelView, post: ChannelView, m: i64, to: i64) -> bool {
    &&& post == (ChannelView { occupants: post.occupants, ..pre })
    &&& forall|x: i64| x != m ==> (post.occupants.contains(x) <==> pre.occupants.contains(x))
    &&& (post.occupants.contains(m) <==> pre.id == to)
}

/// Directories `pre` and `post` agree except that the member `m` now
/// occupies exactly the channel `to`.
pub open spec fn moved(pre: DirView, post: DirView, m: i64, to: i64) -> bool {
    &&& post.next_id == pre.next_id
    &&& post.channels.len() == pre.channels.len()
    &&& forall|j: int|
        0 <= j < pre.channels.len() ==> relocated(
            #[trigger] pre.channels[j],
            post.channels[j],
            m,
            to,
        )
}

/// Channels `pre` and `post` agree except that `m` is absent from `post`.
pub open spec fn vacated(pre: ChannelView, post: ChannelView, m: i64) -> bool {
    &&& post == (ChannelView { occupants: post.occupants, ..pre })
    &&& forall|x: i64| x != m ==> (post.occupants.contains(x) <==> pre.occupants.contains(x))
    &&& !post.occupants.contains(m)
}

/// Directories `pre` and `post` agree except that the member `m` occupies
/// no channel of `post`.
pub open spec fn departed(pre: DirView, post: DirView, m: i64) -> bool {
    &&& post.next_id == pre.next_id
    &&& post.channels.len() == pre.channels.len()
    &&& forall|j: int|
        0 <= j < pre.channels.len() ==> vacated(#[trigger] pre.channels[j], post.channels[j], m)
}

/// Does an id list (an occupant list, a channel list) hold `x`?
pub(crate) fn id_list_contains(v: &Vec<i64>, x: i64) -> (r: bool)
    ensures
        r == v@.contains(x),
{
    let mut i: usize = 0;
    while i < v.len()
        invariant
            i <= v@.len(),
            forall|j: int| 0 <= j < i ==> v@[j] != x,
        decreases v@.len() - i,
    {
        if v[i] == x {
            return true;
        }
        i = i + 1;
    }
    false
}

/// Remove every occurrence of `m` from an occupant list.
fn occupants_remove(v: &mut Vec<i64>, m: i64)
    ensures
        forall|x: i64| #[trigger] final(v)@.contains(x) <==> (old(v)@.contains(x) && x != m),
{
    let mut kept: Vec<i64> = Vec::new();
    let mut i: usize = 0;
    while i < v.len()
        invariant
            i <= v@.len(),
            forall|x: i64| #[trigger] kept@.contains(x) <==> (v@.subrange(0, i as int).contains(x)
                && x != m),
        decreases v@.len() - i,
    {
        let ghost seen = v@.subrange(0, i as int);
        let row = v[i];
        if row != m {
            kept.push(row);
        }
        i = i + 1;
        proof {
            broadcast use vstd::seq_lib::lemma_seq_contains_after_push;

            assert(v@.subrange(0, i as int) =~= seen.push(row));
        }
    }
    proof {
        assert(v@.subrange(0, v@.len() as int) =~= v@);
    }
    *v = kept;
}

impl DirectorySnapshot {
    /// A directory with no channels yet; identifiers start at 1.
    pub fn new() -> (r: DirectorySnapshot)
        ensures
            r@.wf(),
            r@.channels =~= Seq::<ChannelView>::empty(),
            r@.next_id == 1,
    {
        let r = DirectorySnapshot { channels: Vec::new(), next_id: 1 };
        proof {
            assert(r@.channels =~= Seq::<ChannelView>::empty());
        }
        r
    }

    /// The position of the channel with this id, if the directory lists it.
    fn find_index(&self, id: i64) -> (r: Option<usize>)
        ensures
            match r {
                Some(i) => i < self@.channels.len() && self@.channels[i as int].id == id,
                None => !self@.has_channel(id),
            },
    {
        let mut i: usize = 0;
        while i < self.channels.len()
            invariant
                i <= self@.channels.len(),
                forall|j: int| 0 <= j < i ==> #[trigger] self@.channels[j].id != id,
            decreases self@.channels.len() - i,
        {
            if self.channels[i].id == id {
                return Some(i);
            }
            i = i + 1;
        }
        None
    }

    /// Does the directory list a channel with this id?
    pub fn contains_channel(&self, id: i64) -> (r: bool)
        ensures
            r == self@.has_channel(id),
    {
        self.find_index(id).is_some()
    }

    /// The parent grouping of the channel with this id, if the directory
    /// lists the channel and it has one.
    pub fn parent_of(&self, id: i64) -> (r: Option<i64>)
        requires
            self@.has_channel(id),
            self@.wf(),
        ensures
            r == self@.channel(id).parent_id,
    {
        match self.find_index(id) {
            Some(i) => {
                proof {
                    self.lemma_index_agrees(id, i as int);
                }
                self.channels[i].parent_id
            },
            None => None,
        }
    }

    /// A fresh read of how many members currently occupy the channel; the
    /// answer is absent when the directory does not list the channel.
    pub fn occupant_count(&self, id: i64) -> (r: Option<usize>)
        requires
            self@.wf(),
        ensures
            match r {
                Some(n) => self@.has_channel(id) && n as nat == self@.channel(id).occupants.len(),
                None => !self@.has_channel(id),
            },
    {
        match self.find_index(id) {
            Some(i) => {
                proof {
                    self.lemma_index_agrees(id, i as int);
                }
                Some(self.channels[i].occupants.len())
            },
            None => None,
        }
    }

    /// Under uniqueness of ids, any position holding `id` is the position
    /// `index_of(id)` speaks of.
    proof fn lemma_index_agrees(&self, id: i64, i: int)
        requires
            self@.wf(),
            0 <= i < self@.channels.len(),
            self@.channels[i].id == id,
        ensures
            self@.index_of(id) == i,
            self@.channel(id) == self@.channels[i],
            self@.has_channel(id),
    {
        assert(self@.has_channel(id));
        let k = self@.index_of(id);
        assert(0 <= k < self@.channels.len() && self@.channels[k].id == id);
    }

    /// Create a voice channel: the platform hands out the next identifier
    /// and lists a fresh, empty, uncapped channel with the requested name,
    /// grouping and initial overwrites.
    pub fn create_voice_channel(
        &mut self,
        name: String,
        parent_id: Option<i64>,
        overwrites: Vec<PermissionOverwrite>,
    ) -> (r: i64)
        requires
            old(self)@.wf(),
            old(self)@.next_id < i64::MAX,
        ensures
            final(self)@.wf(),
            r == old(self)@.next_id,
            final(self)@.next_id == old(self)@.next_id + 1,
            final(self)@.channels == old(self)@.channels.push(
                fresh_channel(old(self)@.next_id, name@, parent_id, overwrites@),
            ),
    {
        let id = self.next_id;
        self.next_id = self.next_id + 1;
        let channel = DirectoryChannel {
            id,
            is_voice: true,
            name,
            parent_id,
            occupants: Vec::new(),
            overwrites,
            user_limit: 0,
        };
        proof {
            assert(channel@ == fresh_channel(id, channel.name@, parent_id, channel.overwrites@));
        }
        self.channels.push(channel);
        proof {
            assert(self@.channels =~~= old(self)@.channels.push(
                fresh_channel(old(self)@.next_id, channel.name@, parent_id, channel.overwrites@),
            ));
            assert(self@.wf()) by {
                let n = old(self)@.channels.len() as int;
                assert(forall|k: int| 0 <= k < n ==> self@.channels[k] == old(self)@.channels[k]);
                assert(self@.channels[n].id == old(self)@.next_id);
            }
        }
        id
    }

    /// Delete the channel with this id; the directory no longer lists it.
    pub fn delete_channel(&mut self, id: i64)
        requires
            old(self)@.wf(),
        ensures
            final(self)@.wf(),
            final(self)@ == old(self)@.remove_channel(id),
    {
        match self.find_index(id) {
            Some(i) => {
                proof {
                    self.lemma_index_agrees(id, i as int);
                }
                self.channels.remove(i);
                proof {
                    assert(final(self)@ =~~= old(self)@.remove_channel(id));
                }
            },
            None => {
                proof {
                    assert(final(self)@ =~~= old(self)@.remove_channel(id));
                }
            },
        }
    }

    /// Set the name of the channel with this id.
    pub fn edit_name(&mut self, id: i64, name: String)
        requires
            old(self)@.wf(),
            old(self)@.has_channel(id),
        ensures
            final(self)@.wf(),
            final(self)@ == old(self)@.update_channel(
                id,
                old(self)@.channel(id).with_name(name@),
            ),
    {
        let i = match self.find_index(id) {
            Some(i) => i,
            None => {
                proof {
                    assert(false);
                }
                0
            },
        };
        proof {
            self.lemma_index_agrees(id, i as int);
        }
        let ch = &mut self.channels[i];
        ch.name = name;
        proof {
            assert(final(self)@ =~~= old(self)@.update_channel(
                id,
                old(self)@.channel(id).with_name(name@),
            ));
        }
    }

    /// Replace the permission overwrites of the channel with this id.
    pub fn edit_overwrites(&mut self, id: i64, overwrites: Vec<PermissionOverwrite>)
        requires
            old(self)@.wf(),
            old(self)@.has_channel(id),
        ensures
            final(self)@.wf(),
            final(self)@ == old(self)@.update_channel(
                id,
                old(self)@.channel(id).with_overwrites(overwrites@),
            ),
    {
        let i = match self.find_index(id) {
            Some(i) => i,
            None => {
                proof {
                    assert(false);
                }
                0
            },
        };
        proof {
            self.lemma_index_agrees(id, i as int);
        }
        let ghost target = overwrites@;
        let ch = &mut self.channels[i];
        ch.overwrites = overwrites;
        proof {
            assert(final(self)@ =~~= old(self)@.update_channel(
                id,
                old(self)@.channel(id).with_overwrites(target),
            ));
        }
    }

    /// Set the occupancy cap of the channel with this id (0 = unlimited).
    pub fn edit_user_limit(&mut self, id: i64, user_limit: u64)
        requires
            old(self)@.wf(),
            old(self)@.has_channel(id),
        ensures
            final(self)@.wf(),
            final(self)@ == old(self)@.update_channel(
                id,
                old(self)@.channel(id).with_user_limit(user_limit),
            ),
    {
        let i = match self.find_index(id) {
            Some(i) => i,
            None => {
                proof {
                    assert(false);
                }
                0
            },
        };
        proof {
            self.lemma_index_agrees(id, i as int);
        }
        let ch = &mut self.channels[i];
        ch.user_limit = user_limit;
        proof {
            assert(final(self)@ =~~= old(self)@.update_channel(
                id,
                old(self)@.channel(id).with_user_limit(user_limit),
            ));
        }
    }

    /// Relocate a member: after the call the member occupies the channel
    /// `to` and no other.
    pub fn move_member(&mut self, m: i64, to: i64)
        requires
            old(self)@.wf(),
            old(self)@.has_channel(to),
        ensures
            final(self)@.wf(),
            moved(old(self)@, final(self)@, m, to),
    {
        let ghost orig = old(self)@.channels;
        let mut i: usize = 0;
        while i < self.channels.len()
            invariant
                i <= self@.channels.len(),
                self@.channels.len() == orig.len(),
                self@.next_id == old(self)@.next_id,
                forall|j: int| i <= j < orig.len() ==> #[trigger] self@.channels[j] == orig[j],
                forall|j: int| 0 <= j < i ==> relocated(
                    #[trigger] orig[j],
                    self@.channels[j],
                    m,
                    to,
                ),
            decreases self@.channels.len() - i,
        {
            let ghost cur = self@.channels;
            proof {
                assert(orig[i as int] == cur[i as int]);
            }
            let elem = self.channels.remove(i);
            proof {
                assert(elem@ == cur[i as int]);
            }
            let DirectoryChannel {
                id: cid,
                is_voice,
                name,
                parent_id,
                mut occupants,
                overwrites,
                user_limit,
            } = elem;
            proof {
                assert(cid == orig[i as int].id);
                assert(occupants@ == orig[i as int].occupants);
            }
            occupants_remove(&mut occupants, m);
            if cid == to {
                occupants.push(m);
            }
            let ch = DirectoryChannel {
                id: cid,
                is_voice,
                name,
                parent_id,
                occupants,
                overwrites,
                user_limit,
            };
            self.channels.insert(i, ch);
            proof {
                broadcast use vstd::seq_lib::lemma_seq_contains_after_push;

                assert(self@.channels =~= cur.update(i as int, ch@));
                assert(relocated(orig[i as int], self@.channels[i as int], m, to));
            }
            i = i + 1;
        }
        proof {
            assert(final(self)@.wf()) by {
                assert(forall|j: int|
                    0 <= j < orig.len() ==> #[trigger] final(self)@.channels[j].id == orig[j].id);
            }
        }
    }

    /// Disconnect a member from voice: after the call the member occupies
    /// no channel.
    pub fn disconnect_member(&mut self, m: i64)
        requires
            old(self)@.wf(),
        ensures
            final(self)@.wf(),
            departed(old(self)@, final(self)@, m),
    {
        let ghost orig = old(self)@.channels;
        let mut i: usize = 0;
        while i < self.channels.len()
            invariant
                i <= self@.channels.len(),
                self@.channels.len() == orig.len(),
                self@.next_id == old(self)@.next_id,
                forall|j: int| i <= j < orig.len() ==> #[trigger] self@.channels[j] == orig[j],
                forall|j: int| 0 <= j < i ==> vacated(#[trigger] orig[j], self@.channels[j], m),
            decreases self@.channels.len() - i,
        {
            let ghost cur = self@.channels;
            proof {
                assert(orig[i as int] == cur[i as int]);
            }
            let elem = self.channels.remove(i);
            proof {
                assert(elem@ == cur[i as int]);
            }
            let DirectoryChannel {
                id: cid,
                is_voice,
                name,
                parent_id,
                mut occupants,
                overwrites,
                user_limit,
            } = elem;
            proof {
                assert(cid == orig[i as int].id);
                assert(occupants@ == orig[i as int].occupants);
            }
            occupants_remove(&mut occupants, m);
            let ch = DirectoryChannel {
                id: cid,
                is_voice,
                name,
                parent_id,
                occupants,
                overwrites,
                user_limit,
            };
            self.channels.insert(i, ch);
            proof {
                assert(self@.channels =~= cur.update(i as int, ch@));
                assert(vacated(orig[i as int], self@.channels[i as int], m));
            }
            i = i + 1;
        }
        proof {
            assert(final(self)@.wf()) by {
                assert(forall|j: int|
                    0 <= j < orig.len() ==> #[trigger] final(self)@.channels[j].id == orig[j].id);
            }
        }
    }
}

} // verus!
