//! The player ("Scorch"): flame resource, invincibility window, and the
//! dash / double-jump availability state machine.
//!
//! Exactly one player exists in a running world.  Input polling, raycasts
//! and impulses belong to the engine; this module holds the resource and
//! ability bookkeeping they consult.  All times are in milliseconds of
//! simulation time.

use vstd::prelude::*;

verus! {

/// Flame regained per regeneration tick (and per absorbed ember).
pub const FLAME_REGEN_STEP: u64 = 1;

/// Flame spent on one propulsion burst (which also spawns an ember).
pub const PROPEL_FLAME_COST: u64 = 1;

/// Minimum time between dashes, in milliseconds.
pub const DASH_COOLDOWN_MS: u64 = 1000;

/// Two taps of the same key within this window make a dash, in
/// milliseconds.
pub const DOUBLE_TAP_WINDOW_MS: u64 = 200;

/// Resource and ability state of the player.
#[derive(Clone, Copy, Debug, PartialEq, Eq, Structural)]
pub struct Scorch {
    /// Flame capacity; `curr_flame` never exceeds it.
    pub max_flame: u64,
    /// Current flame, the player's life and fuel resource.
    pub curr_flame: u64,
    /// Invincibility window after an accepted hit, in milliseconds.
    pub i_frame: u64,
    /// When the last accepted hit landed, in milliseconds.
    pub i_frame_timer: u64,
    /// Whether the double jump is still available.
    pub double_jump: bool,
    /// Whether the dash is available.
    pub dash_ready: bool,
    /// When the dash was last used, in milliseconds.
    pub dash_at: u64,
    /// When the left dash key was last tapped, in milliseconds.
    pub a_dash: u64,
    /// When the right dash key was last tapped, in milliseconds.
    pub d_dash: u64,
    /// Sustained-contact damage rate accrued while touching an enemy.
    pub damage_per_frame: u64,
}

impl Scorch {
    /// Flame never exceeds capacity.
    pub open spec fn wf(self) -> bool {
        self.curr_flame <= self.max_flame
    }

    /// The state after one regeneration tick: one step of flame back,
    /// clamped so the capacity is never exceeded.
    pub open spec fn regen_spec(self) -> Scorch {
        if self.curr_flame >= self.max_flame {
            self
        } else if self.curr_flame + FLAME_REGEN_STEP <= self.max_flame {
            Scorch { curr_flame: (self.curr_flame + FLAME_REGEN_STEP) as u64, ..self }
        } else {
            Scorch { curr_flame: self.max_flame, ..self }
        }
    }

    /// Whether a hit at time `now` lands: the invincibility window from
    /// the last accepted hit must have fully elapsed.
    pub open spec fn hit_accepted_spec(self, now: u64) -> bool {
        now >= self.i_frame_timer + self.i_frame
    }

    /// The state after a hit of `dmg` at time `now`: an accepted hit
    /// restarts the invincibility window and burns flame, floored at
    /// zero; a blocked hit changes nothing.
    pub open spec fn damage_flame_spec(self, dmg: u64, now: u64) -> Scorch {
        if self.hit_accepted_spec(now) {
            Scorch {
                i_frame_timer: now,
                curr_flame: if dmg < self.curr_flame {
                    (self.curr_flame - dmg) as u64
                } else {
                    0
                },
                ..self
            }
        } else {
            self
        }
    }

    /// The state after a propulsion attempt: with flame left, one burst's
    /// cost is spent, floored at zero; with none, nothing happens.
    pub open spec fn propel_spec(self) -> Scorch {
        if self.curr_flame > 0 {
            Scorch {
                curr_flame: if self.curr_flame >= PROPEL_FLAME_COST {
                    (self.curr_flame - PROPEL_FLAME_COST) as u64
                } else {
                    0
                },
                ..self
            }
        } else {
            self
        }
    }

    /// Whether a left-dash tap at time `now` triggers a dash: the dash
    /// must be available, the previous left tap must fall within the
    /// double-tap window, and the dash cooldown must have elapsed.
    pub open spec fn a_dash_ready_spec(self, now: u64) -> bool {
        self.dash_ready && now < self.a_dash + DOUBLE_TAP_WINDOW_MS && now > self.dash_at
            + DASH_COOLDOWN_MS
    }

    /// The state after a left-dash tap at `now`: a triggered dash consumes
    /// the availability and records its time; otherwise the tap itself is
    /// recorded for double-tap detection.
    pub open spec fn a_dash_spec(self, now: u64) -> Scorch {
        if self.a_dash_ready_spec(now) {
            Scorch { dash_ready: false, dash_at: now, ..self }
        } else {
            Scorch { a_dash: now, ..self }
        }
    }

    /// Right-dash counterpart of `a_dash_ready_spec`.
    pub open spec fn d_dash_ready_spec(self, now: u64) -> bool {
        self.dash_ready && now < self.d_dash + DOUBLE_TAP_WINDOW_MS && now > self.dash_at
            + DASH_COOLDOWN_MS
    }

    /// Right-dash counterpart of `a_dash_spec`.
    pub open spec fn d_dash_spec(self, now: u64) -> Scorch {
        if self.d_dash_ready_spec(now) {
            Scorch { dash_ready: false, dash_at: now, ..self }
        } else {
            Scorch { d_dash: now, ..self }
        }
    }

    /// The accumulator after adding `delta` (possibly negative), floored
    /// at zero and saturating at the top of `u64`.
    pub open spec fn add_dpf_spec(self, delta: int) -> Scorch {
        Scorch {
            damage_per_frame: if self.damage_per_frame + delta <= 0 {
                0
            } else if self.damage_per_frame + delta <= u64::MAX {
                (self.damage_per_frame + delta) as u64
            } else {
                u64::MAX
            },
            ..self
        }
    }

    /// A fresh player at full flame with everything spent or untouched.
    pub fn new(max_flame: u64, i_frame: u64) -> (s: Scorch)
        ensures
            s == (Scorch {
                max_flame,
                curr_flame: max_flame,
                i_frame,
                i_frame_timer: 0,
                double_jump: false,
                dash_ready: false,
                dash_at: 0,
                a_dash: 0,
                d_dash: 0,
                damage_per_frame: 0,
            }),
            s.wf(),
    {
        Scorch {
            max_flame,
            curr_flame: max_flame,
            i_frame,
            i_frame_timer: 0,
            double_jump: false,
            dash_ready: false,
            dash_at: 0,
            a_dash: 0,
            d_dash: 0,
            damage_per_frame: 0,
        }
    }

    /// One regeneration tick: a fixed step of flame back, never past the
    /// capacity, and a no-op once full.
    pub fn regen_flame(&mut self)
        ensures
            *final(self) == old(self).regen_spec(),
    {
        if self.curr_flame < self.max_flame {
            let room = self.max_flame - self.curr_flame;
            if room >= FLAME_REGEN_STEP {
                self.curr_flame = self.curr_flame + FLAME_REGEN_STEP;
            } else {
                self.curr_flame = self.max_flame;
            }
        }
    }

    /// Take a hit of `dmg` at time `now`.  Returns whether the hit landed:
    /// hits within the invincibility window of the last accepted hit are
    /// fully blocked, with no state change; an accepted hit restarts the
    /// window and burns flame, floored at zero.
    pub fn damage_flame(&mut self, dmg: u64, now: u64) -> (landed: bool)
        ensures
            landed == old(self).hit_accepted_spec(now),
            *final(self) == old(self).damage_flame_spec(dmg, now),
    {
        if now >= self.i_frame_timer && now - self.i_frame_timer >= self.i_frame {
            self.i_frame_timer = now;
            if dmg < self.curr_flame {
                self.curr_flame = self.curr_flame - dmg;
            } else {
                self.curr_flame = 0;
            }
            true
        } else {
            false
        }
    }

    /// Spend flame on one propulsion burst.  Propulsion is possible only
    /// while some flame is left; the cost is floored at zero, the flame
    /// floor policy of this crate (the resource never goes negative).
    pub fn try_propel(&mut self) -> (propelled: bool)
        ensures
            propelled == (old(self).curr_flame > 0),
            *final(self) == old(self).propel_spec(),
    {
        if self.curr_flame > 0 {
            if self.curr_flame >= PROPEL_FLAME_COST {
                self.curr_flame = self.curr_flame - PROPEL_FLAME_COST;
            } else {
                self.curr_flame = 0;
            }
            true
        } else {
            false
        }
    }

    /// Reset the player's stats on restart: flame back to capacity.
    pub fn reset(&mut self)
        ensures
            *final(self) == (Scorch { curr_flame: old(self).max_flame, ..*old(self) }),
            final(self).wf(),
    {
        self.curr_flame = self.max_flame;
    }

    /// Ground contact refreshes the dash and the double jump.
    pub fn grounded(&mut self)
        ensures
            *final(self) == (Scorch {
                double_jump: true,
                dash_ready: true,
                ..*old(self)
            }),
    {
        self.dash_ready = true;
        self.double_jump = true;
    }

    /// Left-dash gate: triggers, consuming the availability and recording
    /// the dash time, exactly when the dash is available, the previous
    /// left tap fell within the double-tap window, and the cooldown since
    /// the last dash has elapsed; otherwise the tap time is recorded for
    /// future double-tap detection.
    pub fn a_dash_avail(&mut self, now: u64) -> (dashed: bool)
        ensures
            dashed == old(self).a_dash_ready_spec(now),
            *final(self) == old(self).a_dash_spec(now),
    {
        let tapped = now < self.a_dash || now - self.a_dash < DOUBLE_TAP_WINDOW_MS;
        let cooled = now > self.dash_at && now - self.dash_at > DASH_COOLDOWN_MS;
        if self.dash_ready && tapped && cooled {
            self.dash_ready = false;
            self.dash_at = now;
            true
        } else {
            self.a_dash = now;
            false
        }
    }

    /// Right-dash counterpart of `a_dash_avail`.
    pub fn d_dash_avail(&mut self, now: u64) -> (dashed: bool)
        ensures
            dashed == old(self).d_dash_ready_spec(now),
            *final(self) == old(self).d_dash_spec(now),
    {
        let tapped = now < self.d_dash || now - self.d_dash < DOUBLE_TAP_WINDOW_MS;
        let cooled = now > self.dash_at && now - self.dash_at > DASH_COOLDOWN_MS;
        if self.dash_ready && tapped && cooled {
            self.dash_ready = false;
            self.dash_at = now;
            true
        } else {
            self.d_dash = now;
            false
        }
    }

    /// Double-jump gate: succeeds exactly once per refresh.
    pub fn double_jump_avail(&mut self) -> (jumped: bool)
        ensures
            jumped == old(self).double_jump,
            *final(self) == (Scorch { double_jump: false, ..*old(self) }),
    {
        if self.double_jump {
            self.double_jump = false;
            true
        } else {
            false
        }
    }

    /// Add `added_dmg` to the damage-per-frame accumulator, clamping at
    /// zero — so removing a rate twice never drives it negative — and
    /// saturating at the top of `u64`.
    pub fn add_dpf(&mut self, added_dmg: i64)
        ensures
            *final(self) == old(self).add_dpf_spec(added_dmg as int),
    {
        if added_dmg >= 0 {
            let d = added_dmg as u64;
            if self.damage_per_frame <= u64::MAX - d {
                self.damage_per_frame = self.damage_per_frame + d;
            } else {
                self.damage_per_frame = u64::MAX;
            }
        } else {
            let removed: u64 = (-(added_dmg as i128)) as u64;
            assert(removed == -(added_dmg as int));
            if self.damage_per_frame > removed {
                self.damage_per_frame = self.damage_per_frame - removed;
            } else {
                self.damage_per_frame = 0;
            }
        }
    }

    /// Current damage-per-frame accumulator.
    pub fn get_dpf(&self) -> (r: u64)
        ensures
            r == self.damage_per_frame,
    {
        self.damage_per_frame
    }

    /// Reset the damage-per-frame accumulator.
    pub fn clear_dpf(&mut self)
        ensures
            *final(self) == (Scorch { damage_per_frame: 0, ..*old(self) }),
    {
        self.damage_per_frame = 0;
    }
}

/// The player state after `n` regeneration ticks.
pub open spec fn regen_n_spec(s: Scorch, n: nat) -> Scorch
    decreases n,
{
    if n == 0 {
        s
    } else {
        regen_n_spec(s, (n - 1) as nat).regen_spec()
    }
}

/// Regeneration never pushes the flame above the capacity, no matter how
/// often it runs: each tick preserves well-formedness, and any number of
/// ticks from a well-formed state leaves the flame at or under the
/// capacity.
pub proof fn lemma_regen_never_exceeds_max(s: Scorch, n: nat)
    requires
        s.wf(),
    ensures
        s.regen_spec().wf(),
        regen_n_spec(s, n).wf(),
        regen_n_spec(s, n).curr_flame <= s.max_flame,
        regen_n_spec(s, n).max_flame == s.max_flame,
    decreases n,
{
    if n > 0 {
        lemma_regen_never_exceeds_max(s, (n - 1) as nat);
    }
}

/// Hits within the invincibility window of an accepted hit are fully
/// blocked: after a hit lands at `t1`, a second hit before the window
/// elapses changes nothing, so damage is applied exactly once.
pub proof fn lemma_invincibility_window(s: Scorch, dmg1: u64, dmg2: u64, t1: u64, t2: u64)
    requires
        s.hit_accepted_spec(t1),
        t1 <= t2 < t1 + s.i_frame,
    ensures
        !s.damage_flame_spec(dmg1, t1).hit_accepted_spec(t2),
        s.damage_flame_spec(dmg1, t1).damage_flame_spec(dmg2, t2) == s.damage_flame_spec(
            dmg1,
            t1,
        ),
{
}

} // verus!
