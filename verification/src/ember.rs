//! Per-ember strength-decay state machine.
//!
//! Embers are short-lived projectiles spawned from the player's flame.  A
//! shared repeating timer ticks all embers in lockstep: each firing moves an
//! ember one strength step down, and a firing that reaches an already-weak
//! ember destroys it.  Embers can also be destroyed early: absorbed by the
//! player or consumed on striking an enemy.

use vstd::prelude::*;

verus! {

/// How strongly an ember still burns.  Decay only ever moves one step down
/// the order `Full`, `Strong`, `Normal`, `Weak`.
#[derive(Clone, Copy, Debug, PartialEq, Eq, Structural)]
pub enum EmberStrength {
    Weak,
    Normal,
    Strong,
    Full,
}

/// Decay state of one ember.
#[derive(Clone, Copy, Debug, PartialEq, Eq, Structural)]
pub struct EmberComponent {
    pub state: EmberStrength,
}

/// How many decay steps a strength is away from `Weak`.
pub open spec fn strength_rank(s: EmberStrength) -> nat {
    match s {
        EmberStrength::Weak => 0,
        EmberStrength::Normal => 1,
        EmberStrength::Strong => 2,
        EmberStrength::Full => 3,
    }
}

/// One firing of the shared decay timer: the next strength, or `None` when
/// the firing destroys the ember.
pub open spec fn decay_spec(s: EmberStrength) -> Option<EmberStrength> {
    match s {
        EmberStrength::Full => Some(EmberStrength::Strong),
        EmberStrength::Strong => Some(EmberStrength::Normal),
        EmberStrength::Normal => Some(EmberStrength::Weak),
        EmberStrength::Weak => None,
    }
}

impl EmberComponent {
    /// A freshly spawned ember at full strength.
    pub fn full() -> (e: EmberComponent)
        ensures
            e == (EmberComponent { state: EmberStrength::Full }),
    {
        EmberComponent { state: EmberStrength::Full }
    }

    /// Apply one firing of the decay timer.  Returns `true` when the firing
    /// destroys the ember (its state is then meaningless to callers, who
    /// must despawn it); otherwise the ember is left one step weaker.
    pub fn decay(&mut self) -> (destroyed: bool)
        ensures
            destroyed == (decay_spec(old(self).state) is None),
            match decay_spec(old(self).state) {
                Some(next) => final(self).state == next,
                None => *final(self) == *old(self),
            },
    {
        match self.state {
            EmberStrength::Full => {
                self.state = EmberStrength::Strong;
                false
            },
            EmberStrength::Strong => {
                self.state = EmberStrength::Normal;
                false
            },
            EmberStrength::Normal => {
                self.state = EmberStrength::Weak;
                false
            },
            EmberStrength::Weak => true,
        }
    }
}

/// Decay never skips a strength and never resurrects an ember: each firing
/// on a surviving ember lowers its rank by exactly one, only a firing on a
/// weak ember destroys it, and so a fresh (full) ember survives exactly
/// three firings — after them it is weak, and the following firing removes
/// it.
pub proof fn lemma_ember_decay_progression(s: EmberStrength)
    ensures
        match decay_spec(s) {
            Some(next) => strength_rank(next) + 1 == strength_rank(s),
            None => s is Weak,
        },
        decay_spec(s) is None <==> s is Weak,
        decay_spec(EmberStrength::Full) == Some(EmberStrength::Strong),
        decay_spec(EmberStrength::Strong) == Some(EmberStrength::Normal),
        decay_spec(EmberStrength::Normal) == Some(EmberStrength::Weak),
        decay_spec(EmberStrength::Weak) is None,
{
}

} // verus!
