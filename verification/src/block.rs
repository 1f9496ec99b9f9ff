//! Per-block burn/extinguish state machine.
//!
//! A block is fixed at spawn as `burnable` (it can catch fire) and
//! `extinguishable` (once lit, the player can put it out).  While lit it
//! carries the ignition time; the world destroys it once `burn_duration`
//! has elapsed.  All times are in milliseconds of simulation time.

use vstd::prelude::*;

verus! {

/// Burn duration used for blocks that give none of their own, in milliseconds.
pub const DEFAULT_BURN_DURATION_MS: u64 = 10000;

/// Burn/extinguish state of one terrain block.
#[derive(Clone, Copy, Debug, PartialEq, Eq, Structural)]
pub struct BlockInfo {
    /// Whether this block can be set on fire.
    pub burnable: bool,
    /// Whether, once burning, it can be put out.
    pub extinguishable: bool,
    /// How long it burns before it is destroyed, in milliseconds.
    pub burn_duration: u64,
    /// `None` while unlit; `Some(t)` once ignited at simulation time `t`.
    pub ignited_at: Option<u64>,
}

impl BlockInfo {
    /// Whether the block is currently on fire.
    pub open spec fn is_burning_spec(self) -> bool {
        self.ignited_at is Some
    }

    /// The state after an ignition attempt at time `now`: only a burnable,
    /// currently unlit block catches fire, and it records `now`.
    pub open spec fn ignited_spec(self, now: u64) -> BlockInfo {
        if self.burnable && self.ignited_at is None {
            BlockInfo { ignited_at: Some(now), ..self }
        } else {
            self
        }
    }

    /// The state after an extinguish attempt: only an extinguishable block
    /// is cleared back to unlit.
    pub open spec fn extinguished_spec(self) -> BlockInfo {
        if self.extinguishable {
            BlockInfo { ignited_at: None, ..self }
        } else {
            self
        }
    }

    /// Whether a block in this state has burned through by time `now`.
    pub open spec fn burned_out_spec(self, now: u64) -> bool {
        match self.ignited_at {
            Some(t) => now >= t + self.burn_duration,
            None => false,
        }
    }

    /// A fresh, unlit block.
    pub fn new(burnable: bool, extinguishable: bool, burn_duration: u64) -> (b: BlockInfo)
        ensures
            b == (BlockInfo {
                burnable,
                extinguishable,
                burn_duration,
                ignited_at: None,
            }),
    {
        BlockInfo { burnable, extinguishable, burn_duration, ignited_at: None }
    }

    /// Try to set the block on fire at time `now`.  A block that cannot burn
    /// never ignites, and a block that is already burning keeps its original
    /// ignition time (first ignition wins).
    pub fn set_burn(&mut self, now: u64)
        ensures
            *final(self) == old(self).ignited_spec(now),
    {
        if self.burnable && self.ignited_at.is_none() {
            self.ignited_at = Some(now);
        }
    }

    /// Try to put the block out.  Only an extinguishable block is cleared.
    pub fn extinguish(&mut self)
        ensures
            *final(self) == old(self).extinguished_spec(),
    {
        if self.extinguishable {
            self.ignited_at = None;
        }
    }

    /// Whether the block is currently on fire.
    pub fn is_burning(&self) -> (r: bool)
        ensures
            r == self.is_burning_spec(),
    {
        self.ignited_at.is_some()
    }

    /// Whether the block has burned for its full duration by time `now`
    /// and must be destroyed.
    pub fn burned_out(&self, now: u64) -> (r: bool)
        ensures
            r == self.burned_out_spec(now),
    {
        match self.ignited_at {
            Some(t) => now >= t && now - t >= self.burn_duration,
            None => false,
        }
    }
}

impl Default for BlockInfo {
    /// A burnable, extinguishable, unlit block with the default burn duration.
    fn default() -> (b: BlockInfo)
        ensures
            b == (BlockInfo {
                burnable: true,
                extinguishable: true,
                burn_duration: DEFAULT_BURN_DURATION_MS,
                ignited_at: None,
            }),
    {
        BlockInfo {
            burnable: true,
            extinguishable: true,
            burn_duration: DEFAULT_BURN_DURATION_MS,
            ignited_at: None,
        }
    }
}

/// Igniting and then immediately extinguishing leaves an extinguishable
/// block unlit; on a non-extinguishable block the extinguish attempt is a
/// no-op, so a block that did catch fire (or was already burning) stays lit.
pub proof fn lemma_ignite_then_extinguish(b: BlockInfo, now: u64)
    ensures
        b.extinguishable ==> b.ignited_spec(now).extinguished_spec().ignited_at is None,
        !b.extinguishable ==> b.ignited_spec(now).extinguished_spec() == b.ignited_spec(now),
        !b.extinguishable && (b.burnable || b.is_burning_spec())
            ==> b.ignited_spec(now).extinguished_spec().ignited_at is Some,
{
}

/// First ignition wins: igniting at `t1` and again at a later `t2` leaves
/// the ignition time at `t1`.
pub proof fn lemma_first_ignite_wins(b: BlockInfo, t1: u64, t2: u64)
    requires
        b.burnable,
        b.ignited_at is None,
        t1 < t2,
    ensures
        b.ignited_spec(t1).ignited_spec(t2) == b.ignited_spec(t1),
        b.ignited_spec(t1).ignited_spec(t2).ignited_at == Some(t1),
{
}

} // verus!
