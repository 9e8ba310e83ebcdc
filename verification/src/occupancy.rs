//! The occupancy store: one non-negative occupant count per guild.

use std::collections::HashMap;
use vstd::prelude::*;

verus! {

broadcast use vstd::std_specs::hash::group_hash_axioms;

/// The count after one member joined: one more, saturating at `u64::MAX`
/// so that counting is total.
pub open spec fn inc_count(c: u64) -> u64 {
    if c == u64::MAX {
        u64::MAX
    } else {
        (c + 1) as u64
    }
}

/// The count after one member left: one less, clamped at zero.  Voice-state
/// events can arrive out of order, so a leave may be seen while the recorded
/// count is already zero; the store clamps rather than underflow.
pub open spec fn dec_count(c: u64) -> u64 {
    if c == 0 {
        0u64
    } else {
        (c - 1) as u64
    }
}

/// Maps each guild to the number of members currently in any of its voice
/// channels.  A guild is tracked only after `init` or `set` introduced it;
/// events for untracked guilds leave the store unchanged.
pub struct VCCounts {
    pub counts: HashMap<u64, u64>,
}

impl View for VCCounts {
    type V = Map<u64, u64>;

    open spec fn view(&self) -> Map<u64, u64> {
        self.counts@
    }
}

impl VCCounts {
    pub fn new() -> (r: Self)
        ensures
            r@ == Map::<u64, u64>::empty(),
    {
        VCCounts { counts: HashMap::new() }
    }

    /// Starts tracking a guild at zero occupants; idempotent, an existing
    /// count is kept.
    pub fn init(&mut self, guild: u64)
        ensures
            final(self)@ == if old(self)@.contains_key(guild) {
                old(self)@
            } else {
                old(self)@.insert(guild, 0u64)
            },
    {
        if !self.counts.contains_key(&guild) {
            self.counts.insert(guild, 0);
        }
    }

    /// Records the occupancy observed at guild discovery, replacing any
    /// earlier count.
    pub fn set(&mut self, guild: u64, count: u64)
        ensures
            final(self)@ == old(self)@.insert(guild, count),
    {
        self.counts.insert(guild, count);
    }

    /// The current count, or `None` for a guild that was never initialized.
    pub fn read(&self, guild: u64) -> (r: Option<u64>)
        ensures
            r == if self@.contains_key(guild) {
                Some(self@[guild])
            } else {
                None::<u64>
            },
    {
        match self.counts.get(&guild) {
            Some(c) => Some(*c),
            None => None,
        }
    }

    /// One member joined: the guild's count grows by one (saturating).
    /// A join for an untracked guild is dropped.
    pub fn increment(&mut self, guild: u64)
        ensures
            final(self)@ == if old(self)@.contains_key(guild) {
                old(self)@.insert(guild, inc_count(old(self)@[guild]))
            } else {
                old(self)@
            },
    {
        let current = match self.counts.get(&guild) {
            Some(c) => Some(*c),
            None => None,
        };
        match current {
            Some(c) => {
                let next: u64 = if c == u64::MAX {
                    c
                } else {
                    c + 1
                };
                self.counts.insert(guild, next);
            },
            None => {},
        }
    }

    /// One member left: the guild's count shrinks by one, clamped at zero.
    /// A leave for an untracked guild is dropped.
    pub fn decrement(&mut self, guild: u64)
        ensures
            final(self)@ == if old(self)@.contains_key(guild) {
                old(self)@.insert(guild, dec_count(old(self)@[guild]))
            } else {
                old(self)@
            },
    {
        let current = match self.counts.get(&guild) {
            Some(c) => Some(*c),
            None => None,
        };
        match current {
            Some(c) => {
                let next: u64 = if c == 0 {
                    0
                } else {
                    c - 1
                };
                self.counts.insert(guild, next);
            },
            None => {},
        }
    }
}

} // verus!
