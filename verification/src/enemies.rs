//! Per-enemy combat state and behavior decisions.
//!
//! An enemy carries health, tuning values fixed at spawn, and slow-varying
//! combat state: a stun window, an activation flag flipped by the player's
//! detection sensor, and a damage-per-frame accumulator for sustained
//! contact.  The movement/physics collaborator performs movement and
//! shooting; this module decides them from the enemy's state and from plain
//! inputs (current time, distance to the player, line of sight).
//! All times are in milliseconds of simulation time.

use vstd::prelude::*;

verus! {

/// The behavior policy of an enemy, fixed at spawn.
#[derive(Clone, Copy, Debug, PartialEq, Eq, Structural)]
pub enum EnemyType {
    /// Melee chaser: runs the player down.
    RunDown,
    /// Moves into range, then shoots.
    Ranged,
    /// Rooted, no attack.
    Stationary,
    /// Rooted, shoots on line of sight.
    StationaryRanged,
    /// Moves into range, then summons lesser enemies.
    Summoner,
}

/// What the movement collaborator should do for one enemy this frame.
#[derive(Clone, Copy, Debug, PartialEq, Eq, Structural)]
pub enum EnemyAction {
    /// Do nothing (stunned, inactive, or rooted with nothing to do).
    Idle,
    /// Apply an impulse toward the player.
    Charge,
    /// Stop moving and wait for the attack cooldown.
    Hold,
    /// Stop moving and fire a projectile toward the player.
    Shoot,
    /// Stop moving and summon a lesser enemy.
    Summon,
}

/// Combat state of one enemy.
#[derive(Clone, Copy, Debug, PartialEq, Eq, Structural)]
pub struct EnemyInfo {
    pub e_type: EnemyType,
    /// Remaining health; the enemy must be destroyed when it reaches 0.
    pub health: u64,
    pub move_speed: u64,
    /// Damage dealt to the player on contact.
    pub dmg: u64,
    /// Engagement range for ranged and summoning enemies, in world units.
    pub range: u64,
    /// Body radius, in world units.
    pub size: u64,
    /// Minimum time between attacks, in milliseconds.
    pub cooldown: u64,
    /// When the enemy last attacked, in milliseconds.
    pub active_cooldown: u64,
    /// The enemy is stunned strictly before this time, in milliseconds.
    pub stunned_until: u64,
    /// Whether the enemy has been activated by the player's detection
    /// sensor; an inactive enemy neither moves nor attacks.
    pub within_range: bool,
    /// Sustained-contact damage rate accrued while touching the player.
    pub damage_per_frame: u64,
    /// Whether knockback may move this enemy.
    pub moveable: bool,
}

impl EnemyInfo {
    /// The state after taking `dmg` damage: health drops, floored at 0.
    pub open spec fn take_dmg_spec(self, dmg: u64) -> EnemyInfo {
        EnemyInfo {
            health: if dmg >= self.health { 0 } else { (self.health - dmg) as u64 },
            ..self
        }
    }

    /// Whether taking `dmg` damage kills the enemy.
    pub open spec fn lethal_spec(self, dmg: u64) -> bool {
        dmg >= self.health
    }

    /// Whether the enemy is stunned at time `now`.
    pub open spec fn is_stunned_spec(self, now: u64) -> bool {
        now < self.stunned_until
    }

    /// Whether an attack is off cooldown at time `now`.
    pub open spec fn can_attack_spec(self, now: u64) -> bool {
        now > self.active_cooldown + self.cooldown
    }

    /// The state after an attack attempt at time `now`: a successful
    /// attempt records `now` as the last attack time.
    pub open spec fn handle_shooting_spec(self, now: u64) -> EnemyInfo {
        if self.can_attack_spec(now) {
            EnemyInfo { active_cooldown: now, ..self }
        } else {
            self
        }
    }

    /// The accumulator after adding `delta` (possibly negative), floored
    /// at zero and saturating at the top of `u64`.
    pub open spec fn add_dpf_spec(self, delta: int) -> EnemyInfo {
        EnemyInfo {
            damage_per_frame: if self.damage_per_frame + delta <= 0 {
                0
            } else if self.damage_per_frame + delta <= u64::MAX {
                (self.damage_per_frame + delta) as u64
            } else {
                u64::MAX
            },
            ..self
        }
    }

    /// Reduce health by `dmg`, floored at 0, and report whether the hit
    /// was lethal.  A lethal hit obliges the caller to destroy the enemy:
    /// the combat resolver marks it for despawn and never interacts with
    /// it again.
    pub fn take_dmg(&mut self, dmg: u64) -> (lethal: bool)
        ensures
            *final(self) == old(self).take_dmg_spec(dmg),
            lethal == old(self).lethal_spec(dmg),
    {
        if dmg >= self.health {
            self.health = 0;
            true
        } else {
            self.health = self.health - dmg;
            false
        }
    }

    /// Hook point for on-death behavior (loot, effects).  Deliberately a
    /// no-op for now, but called explicitly by the resolver on every kill.
    pub fn death_effect(&mut self)
        ensures
            *final(self) == *old(self),
    {
    }

    /// Damage dealt to the player on contact.
    pub fn contact_dmg(&self) -> (r: u64)
        ensures
            r == self.dmg,
    {
        self.dmg
    }

    /// Movement speed.
    pub fn speed(&self) -> (r: u64)
        ensures
            r == self.move_speed,
    {
        self.move_speed
    }

    /// Whether a body at distance `dist` is strictly within engagement
    /// range.
    pub fn is_within_range(&self, dist: u64) -> (r: bool)
        ensures
            r == (dist < self.range),
    {
        dist < self.range
    }

    /// Attack-cooldown gate: succeeds, and records `now` as the last
    /// attack time, exactly when the cooldown has fully elapsed.
    pub fn handle_shooting(&mut self, now: u64) -> (shoot: bool)
        ensures
            shoot == old(self).can_attack_spec(now),
            *final(self) == old(self).handle_shooting_spec(now),
    {
        if now > self.active_cooldown && now - self.active_cooldown > self.cooldown {
            self.active_cooldown = now;
            true
        } else {
            false
        }
    }

    /// Whether the enemy is stunned at time `now`.
    pub fn is_stunned(self, now: u64) -> (r: bool)
        ensures
            r == self.is_stunned_spec(now),
    {
        now < self.stunned_until
    }

    /// Immobilize the enemy until `time_unstunned`.
    pub fn stun_until(&mut self, time_unstunned: u64)
        ensures
            *final(self) == (EnemyInfo { stunned_until: time_unstunned, ..*old(self) }),
    {
        self.stunned_until = time_unstunned;
    }

    /// Activate the enemy: it has entered the player's detection radius.
    pub fn set_active(&mut self)
        ensures
            *final(self) == (EnemyInfo { within_range: true, ..*old(self) }),
    {
        self.within_range = true;
    }

    /// Whether the enemy has been activated.
    pub fn is_active(&self) -> (r: bool)
        ensures
            r == self.within_range,
    {
        self.within_range
    }

    /// Current damage-per-frame accumulator.
    pub fn get_dpf(&self) -> (r: u64)
        ensures
            r == self.damage_per_frame,
    {
        self.damage_per_frame
    }

    /// Add `added_dmg` to the damage-per-frame accumulator, clamping at
    /// zero — so removing a rate twice never drives it negative — and
    /// saturating at the top of `u64`.
    pub fn add_dpf(&mut self, added_dmg: i64)
        ensures
            *final(self) == old(self).add_dpf_spec(added_dmg as int),
    {
        if added_dmg >= 0 {
            let d = added_dmg as u64;
            if self.damage_per_frame <= u64::MAX - d {
                self.damage_per_frame = self.damage_per_frame + d;
            } else {
                self.damage_per_frame = u64::MAX;
            }
        } else {
            let removed: u64 = (-(added_dmg as i128)) as u64;
            assert(removed == -(added_dmg as int));
            if self.damage_per_frame > removed {
                self.damage_per_frame = self.damage_per_frame - removed;
            } else {
                self.damage_per_frame = 0;
            }
        }
    }

    /// Reset the damage-per-frame accumulator.
    pub fn clear_dpf(&mut self)
        ensures
            *final(self) == (EnemyInfo { damage_per_frame: 0, ..*old(self) }),
    {
        self.damage_per_frame = 0;
    }

    /// Whether knockback may move this enemy.
    pub fn is_moveable(&self) -> (r: bool)
        ensures
            r == self.moveable,
    {
        self.moveable
    }

    /// The enemy state after one movement/attack decision at time `now`.
    /// Only the attack-cooldown gate ever changes state here.
    pub open spec fn movement_next_spec(self, now: u64, dist_to_player: u64, has_los: bool) -> EnemyInfo {
        if self.is_stunned_spec(now) || !self.within_range {
            self
        } else {
            match self.e_type {
                EnemyType::RunDown => self,
                EnemyType::Ranged => if dist_to_player < self.range {
                    self.handle_shooting_spec(now)
                } else {
                    self
                },
                EnemyType::Stationary => self,
                EnemyType::StationaryRanged => if has_los {
                    self.handle_shooting_spec(now)
                } else {
                    self
                },
                EnemyType::Summoner => if dist_to_player < self.range {
                    self.handle_shooting_spec(now)
                } else {
                    self
                },
            }
        }
    }

    /// The action the movement collaborator should carry out for this
    /// enemy at time `now`, given the distance to the player and (for
    /// rooted shooters) whether the player is in line of sight.
    pub open spec fn movement_action_spec(self, now: u64, dist_to_player: u64, has_los: bool) -> EnemyAction {
        if self.is_stunned_spec(now) || !self.within_range {
            EnemyAction::Idle
        } else {
            match self.e_type {
                EnemyType::RunDown => EnemyAction::Charge,
                EnemyType::Ranged => if dist_to_player < self.range {
                    if self.can_attack_spec(now) {
                        EnemyAction::Shoot
                    } else {
                        EnemyAction::Hold
                    }
                } else {
                    EnemyAction::Charge
                },
                EnemyType::Stationary => EnemyAction::Idle,
                EnemyType::StationaryRanged => if has_los && self.can_attack_spec(now) {
                    EnemyAction::Shoot
                } else {
                    EnemyAction::Idle
                },
                EnemyType::Summoner => if dist_to_player < self.range {
                    if self.can_attack_spec(now) {
                        EnemyAction::Summon
                    } else {
                        EnemyAction::Hold
                    }
                } else {
                    EnemyAction::Charge
                },
            }
        }
    }

    /// Decide this enemy's movement and attack for the current frame.
    /// A stunned or not-yet-activated enemy does nothing.  A chaser always
    /// charges.  A ranged enemy (or summoner) charges until the player is
    /// strictly within range, then holds position and attacks whenever the
    /// cooldown gate opens.  A rooted shooter attacks only with line of
    /// sight.  Successful attacks record `now` as the last attack time;
    /// nothing else changes.
    pub fn movement_decision(&mut self, now: u64, dist_to_player: u64, has_los: bool) -> (a: EnemyAction)
        ensures
            *final(self) == old(self).movement_next_spec(now, dist_to_player, has_los),
            a == old(self).movement_action_spec(now, dist_to_player, has_los),
    {
        if self.is_stunned(now) || !self.is_active() {
            return EnemyAction::Idle;
        }
        match self.e_type {
            EnemyType::RunDown => EnemyAction::Charge,
            EnemyType::Stationary => EnemyAction::Idle,
            EnemyType::Ranged => {
                if self.is_within_range(dist_to_player) {
                    if self.handle_shooting(now) {
                        EnemyAction::Shoot
                    } else {
                        EnemyAction::Hold
                    }
                } else {
                    EnemyAction::Charge
                }
            },
            EnemyType::StationaryRanged => {
                if has_los && self.handle_shooting(now) {
                    EnemyAction::Shoot
                } else {
                    EnemyAction::Idle
                }
            },
            EnemyType::Summoner => {
                if self.is_within_range(dist_to_player) {
                    if self.handle_shooting(now) {
                        EnemyAction::Summon
                    } else {
                        EnemyAction::Hold
                    }
                } else {
                    EnemyAction::Charge
                }
            },
        }
    }
}

/// The payload of a contact projectile: it flies at `spd` with radius
/// `size` and deals `dmg` on contact.
#[derive(Clone, Copy, Debug, PartialEq, Eq, Structural)]
pub struct ContactProj {
    pub dmg: u64,
    pub spd: u64,
    pub size: u64,
}

/// An enemy projectile, by kind.
#[derive(Clone, Copy, Debug, PartialEq, Eq, Structural)]
pub enum ProjectileType {
    Contact(ContactProj),
}

impl ProjectileType {
    /// The projectile's body radius.
    pub open spec fn size_spec(self) -> u64 {
        match self {
            ProjectileType::Contact(p) => p.size,
        }
    }

    /// The damage the projectile deals on contact.
    pub open spec fn dmg_spec(self) -> u64 {
        match self {
            ProjectileType::Contact(p) => p.dmg,
        }
    }

    /// The projectile's flight speed.
    pub open spec fn spd_spec(self) -> u64 {
        match self {
            ProjectileType::Contact(p) => p.spd,
        }
    }

    /// The baseline contact projectile.
    pub fn default() -> (p: ProjectileType)
        ensures
            p == ProjectileType::Contact(ContactProj { dmg: 10, spd: 10, size: 10 }),
    {
        ProjectileType::Contact(ContactProj { dmg: 10, spd: 10, size: 10 })
    }

    pub fn get_size(&self) -> (r: u64)
        ensures
            r == self.size_spec(),
    {
        match self {
            ProjectileType::Contact(p) => p.size,
        }
    }

    pub fn get_dmg(&self) -> (r: u64)
        ensures
            r == self.dmg_spec(),
    {
        match self {
            ProjectileType::Contact(p) => p.dmg,
        }
    }

    pub fn get_spd(&self) -> (r: u64)
        ensures
            r == self.spd_spec(),
    {
        match self {
            ProjectileType::Contact(p) => p.spd,
        }
    }
}

impl Default for EnemyInfo {
    /// Baseline tuning values, used to fill gaps in spawn data.
    fn default() -> (e: EnemyInfo)
        ensures
            e == (EnemyInfo {
                e_type: EnemyType::RunDown,
                health: 100,
                move_speed: 10,
                dmg: 10,
                range: 250,
                size: 25,
                cooldown: 1000,
                active_cooldown: 0,
                stunned_until: 0,
                within_range: false,
                damage_per_frame: 0,
                moveable: true,
            }),
    {
        EnemyInfo {
            e_type: EnemyType::RunDown,
            health: 100,
            move_speed: 10,
            dmg: 10,
            range: 250,
            size: 25,
            cooldown: 1000,
            active_cooldown: 0,
            stunned_until: 0,
            within_range: false,
            damage_per_frame: 0,
            moveable: true,
        }
    }
}

/// The accumulator clamp is a floor at zero, so it can never go negative,
/// and adding a rate and then removing it twice lands on zero, not below.
pub proof fn lemma_dpf_never_negative(e: EnemyInfo, delta: int)
    requires
        e.damage_per_frame + delta <= u64::MAX,
    ensures
        e.add_dpf_spec(delta).damage_per_frame == if e.damage_per_frame + delta > 0 {
            e.damage_per_frame + delta
        } else {
            0
        },
        e.add_dpf_spec(delta).damage_per_frame >= 0,
        e.damage_per_frame == 0 && delta >= 0 ==> e.add_dpf_spec(delta).add_dpf_spec(
            -delta,
        ).add_dpf_spec(-delta).damage_per_frame == 0,
{
}

/// A hit is lethal exactly when it brings health to zero, and health
/// afterwards is zero exactly on a lethal hit; the resolver destroys the
/// enemy on a lethal hit, so each enemy reports a lethal hit at most once.
pub proof fn lemma_lethal_exactly_at_zero(e: EnemyInfo, dmg: u64)
    ensures
        e.lethal_spec(dmg) <==> dmg >= e.health,
        e.take_dmg_spec(dmg).health == 0 <==> e.lethal_spec(dmg),
{
}

} // verus!
