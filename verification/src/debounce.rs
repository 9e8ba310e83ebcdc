//! The debounce gate: a per-guild suppression flag that collapses rapid
//! join/leave bursts into a single join notification.
//!
//! Each guild owns one gate.  A gate is Idle or Armed; arming succeeds only
//! from Idle, so at most one deferred notification check exists per debounce
//! cycle, and only the expiry of that check releases it.

use std::collections::HashMap;
use vstd::prelude::*;

verus! {

broadcast use vstd::std_specs::hash::group_hash_axioms;

/// One guild's suppression flag.  Its view is `true` exactly while armed.
#[derive(Clone, Copy, Debug, PartialEq, Eq, Structural)]
pub struct DebounceGate {
    pub armed: bool,
}

impl View for DebounceGate {
    type V = bool;

    open spec fn view(&self) -> bool {
        self.armed
    }
}

impl DebounceGate {
    pub fn new() -> (g: Self)
        ensures
            !g@,
    {
        DebounceGate { armed: false }
    }

    /// Atomically moves Idle to Armed.  Returns true exactly on that move,
    /// so of two racing callers only one may schedule a timer.
    pub fn try_arm(&mut self) -> (r: bool)
        ensures
            r == !old(self)@,
            final(self)@,
    {
        if self.armed {
            false
        } else {
            self.armed = true;
            true
        }
    }

    /// Moves back to Idle unconditionally; the only way out of
    /// Armed, called when the deferred check has made its decision.
    pub fn release(&mut self)
        ensures
            !final(self)@,
    {
        self.armed = false;
    }

    pub fn is_armed(&self) -> (r: bool)
        ensures
            r == self@,
    {
        self.armed
    }
}

/// Whether the guild's gate is armed in a gate table: guilds without an
/// entry are Idle.
pub open spec fn gate_armed(gates: Map<u64, bool>, guild: u64) -> bool {
    gates.contains_key(guild) && gates[guild]
}

/// Maps each guild to its own debounce gate, so one guild's cycle never
/// suppresses another guild's notifications.  Gates are created on first
/// use and start Idle.
pub struct DebounceGates {
    pub gates: HashMap<u64, DebounceGate>,
}

impl View for DebounceGates {
    type V = Map<u64, bool>;

    open spec fn view(&self) -> Map<u64, bool> {
        self.gates@.map_values(|g: DebounceGate| g@)
    }
}

impl DebounceGates {
    pub fn new() -> (r: Self)
        ensures
            r@ == Map::<u64, bool>::empty(),
    {
        let r = DebounceGates { gates: HashMap::new() };
        proof {
            assert(r@ =~= Map::<u64, bool>::empty());
        }
        r
    }

    /// Arms the guild's gate; returns true exactly when it was Idle.
    pub fn try_arm(&mut self, guild: u64) -> (r: bool)
        ensures
            r == !gate_armed(old(self)@, guild),
            final(self)@ == old(self)@.insert(guild, true),
    {
        let mut gate = match self.gates.get(&guild) {
            Some(g) => *g,
            None => DebounceGate::new(),
        };
        let r = gate.try_arm();
        self.gates.insert(guild, gate);
        proof {
            assert(final(self)@ =~= old(self)@.insert(guild, true));
        }
        r
    }

    /// Releases the guild's gate unconditionally.
    pub fn release(&mut self, guild: u64)
        ensures
            final(self)@ == old(self)@.insert(guild, false),
    {
        let mut gate = match self.gates.get(&guild) {
            Some(g) => *g,
            None => DebounceGate::new(),
        };
        gate.release();
        self.gates.insert(guild, gate);
        proof {
            assert(final(self)@ =~= old(self)@.insert(guild, false));
        }
    }

    pub fn is_armed(&self, guild: u64) -> (r: bool)
        ensures
            r == gate_armed(self@, guild),
    {
        match self.gates.get(&guild) {
            Some(g) => g.is_armed(),
            None => false,
        }
    }
}

} // verus!
