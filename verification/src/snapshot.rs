//! Directory snapshots: immutable, point-in-time views of the guilds the
//! session has cached, reduced to the identifiers and flags the core logic
//! reads.

use vstd::prelude::*;

verus! {

/// One channel of a guild, as seen in a directory snapshot.
#[derive(Clone, Copy, PartialEq, Eq, Structural, Debug)]
pub struct ChannelSnapshot {
    /// Identifier of the channel within the platform.
    pub id: u64,
    /// Explicit sensitive-content flag. The enrollment policy treats exactly
    /// the flagged channels as forums of first contact.
    pub nsfw: bool,
}

/// Point-in-time view of one guild: its owner, channels and roles.
#[derive(Debug)]
pub struct GuildSnapshot {
    /// Identifier of the guild.
    pub id: u64,
    /// Identifier of the guild owner's account.
    pub owner_id: u64,
    /// The guild's channels.
    pub channels: Vec<ChannelSnapshot>,
    /// Identifiers of the guild's roles.
    pub roles: Vec<u64>,
}

/// Point-in-time view of every guild the session has cached.
#[derive(Debug)]
pub struct DirectorySnapshot {
    /// The cached guilds.
    pub guilds: Vec<GuildSnapshot>,
}

impl GuildSnapshot {
    /// Identifiers within one guild are unique.
    pub open spec fn wf(self) -> bool {
        &&& forall|i: int, j: int|
            0 <= i < j < self.channels@.len() ==> self.channels@[i].id != self.channels@[j].id
        &&& forall|i: int, j: int|
            0 <= i < j < self.roles@.len() ==> self.roles@[i] != self.roles@[j]
    }

    /// Whether the guild has a channel with the given identifier.
    pub open spec fn spec_has_channel(self, id: u64) -> bool {
        exists|i: int| 0 <= i < self.channels@.len() && self.channels@[i].id == id
    }

    /// The channel with the given identifier; meaningful when it exists and
    /// the snapshot is well-formed.
    pub open spec fn spec_channel(self, id: u64) -> ChannelSnapshot {
        self.channels@[choose|i: int|
            0 <= i < self.channels@.len() && self.channels@[i].id == id]
    }

    /// Whether the guild has a role with the given identifier.
    pub open spec fn spec_has_role(self, id: u64) -> bool {
        self.roles@.contains(id)
    }

    /// Looks a channel up by its identifier.
    pub fn find_channel(&self, id: u64) -> (r: Option<&ChannelSnapshot>)
        requires
            self.wf(),
        ensures
            r is Some <==> self.spec_has_channel(id),
            r matches Some(c) ==> *c == self.spec_channel(id) && c.id == id,
    {
        let n = self.channels.len();
        let mut i: usize = 0;
        while i < n
            invariant
                0 <= i <= n,
                n == self.channels@.len(),
                self.wf(),
                forall|k: int| 0 <= k < i ==> self.channels@[k].id != id,
            decreases n - i,
        {
            if self.channels[i].id == id {
                proof {
                    let j = choose|j: int|
                        0 <= j < self.channels@.len() && self.channels@[j].id == id;
                    assert(self.channels@[i as int].id == id);
                    assert(i as int == j);
                }
                return Some(&self.channels[i]);
            }
            i = i + 1;
        }
        None
    }

    /// Checks the guild view's well-formedness: channel and role
    /// identifiers are unique.
    pub fn check_wf(&self) -> (r: bool)
        ensures
            r == self.wf(),
    {
        let cn = self.channels.len();
        let mut i: usize = 0;
        while i < cn
            invariant
                0 <= i <= cn,
                cn == self.channels@.len(),
                forall|a: int, b: int|
                    0 <= a < b < i ==> self.channels@[a].id != self.channels@[b].id,
            decreases cn - i,
        {
            let mut j: usize = 0;
            while j < i
                invariant
                    0 <= j <= i < cn,
                    cn == self.channels@.len(),
                    forall|a: int| 0 <= a < j ==> self.channels@[a].id != self.channels@[i as int].id,
                decreases i - j,
            {
                if self.channels[j].id == self.channels[i].id {
                    return false;
                }
                j = j + 1;
            }
            i = i + 1;
        }
        let rn = self.roles.len();
        let mut i: usize = 0;
        while i < rn
            invariant
                0 <= i <= rn,
                rn == self.roles@.len(),
                forall|a: int, b: int| 0 <= a < b < i ==> self.roles@[a] != self.roles@[b],
                forall|a: int, b: int|
                    0 <= a < b < self.channels@.len() ==> self.channels@[a].id
                        != self.channels@[b].id,
            decreases rn - i,
        {
            let mut j: usize = 0;
            while j < i
                invariant
                    0 <= j <= i < rn,
                    rn == self.roles@.len(),
                    forall|a: int| 0 <= a < j ==> self.roles@[a] != self.roles@[i as int],
                decreases i - j,
            {
                if self.roles[j] == self.roles[i] {
                    return false;
                }
                j = j + 1;
            }
            i = i + 1;
        }
        true
    }

    /// Whether the guild has a role with the given identifier.
    pub fn has_role(&self, id: u64) -> (r: bool)
        ensures
            r == self.spec_has_role(id),
    {
        let n = self.roles.len();
        let mut i: usize = 0;
        while i < n
            invariant
                0 <= i <= n,
                n == self.roles@.len(),
                forall|k: int| 0 <= k < i ==> self.roles@[k] != id,
            decreases n - i,
        {
            if self.roles[i] == id {
                return true;
            }
            i = i + 1;
        }
        false
    }
}

impl DirectorySnapshot {
    /// Guild identifiers are unique and every guild view is well-formed.
    pub open spec fn wf(self) -> bool {
        &&& forall|i: int, j: int|
            0 <= i < j < self.guilds@.len() ==> self.guilds@[i].id != self.guilds@[j].id
        &&& forall|i: int| 0 <= i < self.guilds@.len() ==> #[trigger] self.guilds@[i].wf()
    }

    /// Whether a guild with the given identifier is cached.
    pub open spec fn spec_has_guild(self, id: u64) -> bool {
        exists|i: int| 0 <= i < self.guilds@.len() && self.guilds@[i].id == id
    }

    /// The cached guild with the given identifier; meaningful when it exists
    /// and the snapshot is well-formed.
    pub open spec fn spec_guild(self, id: u64) -> GuildSnapshot {
        self.guilds@[choose|i: int| 0 <= i < self.guilds@.len() && self.guilds@[i].id == id]
    }

    /// Checks the snapshot's well-formedness: guild identifiers are unique
    /// and every guild view is well-formed.
    pub fn check_wf(&self) -> (r: bool)
        ensures
            r == self.wf(),
    {
        let n = self.guilds.len();
        let mut i: usize = 0;
        while i < n
            invariant
                0 <= i <= n,
                n == self.guilds@.len(),
                forall|a: int, b: int| 0 <= a < b < i ==> self.guilds@[a].id != self.guilds@[b].id,
                forall|a: int| 0 <= a < i ==> #[trigger] self.guilds@[a].wf(),
            decreases n - i,
        {
            if !self.guilds[i].check_wf() {
                return false;
            }
            let mut j: usize = 0;
            while j < i
                invariant
                    0 <= j <= i < n,
                    n == self.guilds@.len(),
                    forall|a: int| 0 <= a < j ==> self.guilds@[a].id != self.guilds@[i as int].id,
                decreases i - j,
            {
                if self.guilds[j].id == self.guilds[i].id {
                    return false;
                }
                j = j + 1;
            }
            i = i + 1;
        }
        true
    }

    /// Finds the position of the guild with the given identifier.
    pub fn find_guild_index(&self, id: u64) -> (r: Option<usize>)
        requires
            self.wf(),
        ensures
            r is Some <==> self.spec_has_guild(id),
            r matches Some(i)
                ==> i < self.guilds@.len() && self.guilds@[i as int] == self.spec_guild(id)
                && self.guilds@[i as int].id == id,
    {
        let n = self.guilds.len();
        let mut i: usize = 0;
        while i < n
            invariant
                0 <= i <= n,
                n == self.guilds@.len(),
                self.wf(),
                forall|k: int| 0 <= k < i ==> self.guilds@[k].id != id,
            decreases n - i,
        {
            if self.guilds[i].id == id {
                proof {
                    let j = choose|j: int|
                        0 <= j < self.guilds@.len() && self.guilds@[j].id == id;
                    assert(self.guilds@[i as int].id == id);
                    assert(i as int == j);
                }
                return Some(i);
            }
            i = i + 1;
        }
        None
    }
}

} // verus!
