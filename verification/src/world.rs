//! The simulation world: per-entity combat state, the collision
//! classification and effect resolver, and the periodic tick systems.
//!
//! The physics collaborator owns bodies and contact detection.  Each tick
//! it hands over the contact events since the last drain (with the bodies'
//! positions); the resolver classifies each pair by category tag, applies
//! the matching bilateral effect, and collects despawn requests, impulse
//! requests and non-fatal resolution errors.  Despawns are deferred to the
//! end of the tick, and duplicate start events for one pair are resolved
//! at most once.

use vstd::prelude::*;

use crate::block::BlockInfo;
use crate::ember::decay_spec;
use crate::ember::EmberComponent;
use crate::enemies::EnemyInfo;
use crate::enemies::ProjectileType;
use crate::scorch::Scorch;
use crate::store::Store;
use crate::tags::pair_kind_spec;
use crate::tags::tag_bits;
use crate::tags::tag_bits_spec;
use crate::tags::CategoryTag;
use crate::tags::PairKind;

verus! {

broadcast use vstd::seq_lib::lemma_seq_contains_after_push;

/// Fixed contact damage an enemy takes from touching the player.
pub const CONTACT_TICK_DMG: u64 = 10;

/// Fixed damage an ember deals on striking an enemy.
pub const EMBER_IMPACT_DMG: u64 = 10;

/// How long a knocked-back enemy stays stunned, in milliseconds.
pub const STUN_DURATION_MS: u64 = 5000;

/// Damage-per-frame rate both sides accrue while player and enemy stay
/// in contact; removed again when the contact stops.
pub const DPF_CONTACT_RATE: i64 = 5;

/// Magnitude of a knockback impulse along each axis.
pub const KNOCKBACK_IMPULSE: i64 = 10000000;

/// A contact event delivered by the physics collaborator: an unordered
/// pair of bodies began or ceased touching, with their world positions
/// at that moment.
#[derive(Clone, Copy, Debug, PartialEq, Eq, Structural)]
pub struct ContactEvent {
    /// `true` for contact-start, `false` for contact-stop.
    pub started: bool,
    pub a: u64,
    pub b: u64,
    pub ax: i64,
    pub ay: i64,
    pub bx: i64,
    pub by: i64,
}

/// A request to apply an instantaneous impulse to a body.
#[derive(Clone, Copy, Debug, PartialEq, Eq, Structural)]
pub struct Impulse {
    pub target: u64,
    pub dx: i64,
    pub dy: i64,
}

/// A non-fatal resolution error; the tick goes on.
#[derive(Clone, Copy, Debug, PartialEq, Eq, Structural)]
pub enum ResolveError {
    /// A contact event referenced an entity with no registered category
    /// tag.
    MissingCategoryTag(u64),
    /// Both entities have tags but no handler exists for the pair.
    UnrecognizedPairing(u64, u64),
    /// A handler needed the player singleton and it was absent.
    MissingSingleton,
}

/// The sign of `b - a`, computed without arithmetic.
pub open spec fn dir_sign_spec(a: i64, b: i64) -> int {
    if b > a {
        1
    } else if b < a {
        -1
    } else {
        0
    }
}

/// `a + b`, saturating at the top of `u64`.
pub open spec fn sat_add_spec(a: u64, b: u64) -> u64 {
    if a + b <= u64::MAX {
        (a + b) as u64
    } else {
        u64::MAX
    }
}

/// The id under which the player singleton is registered (meaningful
/// only while it is present).
pub open spec fn scorch_id(w: WorldModel) -> u64 {
    match w.scorch {
        Some(p) => p.0,
        None => 0,
    }
}

/// The mathematical state of a world: one map per component kind, plus
/// the player singleton.
#[verifier::ext_equal]
pub struct WorldModel {
    pub tags: Map<u64, CategoryTag>,
    pub blocks: Map<u64, BlockInfo>,
    pub embers: Map<u64, EmberComponent>,
    pub enemies: Map<u64, EnemyInfo>,
    pub projectiles: Map<u64, ProjectileType>,
    pub scorch: Option<(u64, Scorch)>,
}

/// A tag names state that is really there: each tagged entity has the
/// component its category calls for, and when the player singleton is
/// present it is the one entity tagged `Player`.
pub open spec fn tag_backed(w: WorldModel, id: u64) -> bool {
    match w.tags[id] {
        CategoryTag::Player => w.scorch matches Some(p) ==> p.0 == id,
        CategoryTag::Ember => w.embers.contains_key(id),
        CategoryTag::Block => w.blocks.contains_key(id),
        CategoryTag::Enemy => w.enemies.contains_key(id),
        CategoryTag::EnemyProjectile => w.projectiles.contains_key(id),
        CategoryTag::DetectionSensor => true,
    }
}

/// Well-formedness of a world model: tags and component maps agree, and
/// every simulated body has exactly one category.
pub open spec fn model_wf(w: WorldModel) -> bool {
    &&& forall|id: u64| #[trigger] w.tags.contains_key(id) ==> tag_backed(w, id)
    &&& forall|id: u64| #[trigger] w.blocks.contains_key(id) ==> w.tags.contains_key(id)
        && w.tags[id] == CategoryTag::Block
    &&& forall|id: u64| #[trigger] w.embers.contains_key(id) ==> w.tags.contains_key(id)
        && w.tags[id] == CategoryTag::Ember
    &&& forall|id: u64| #[trigger] w.enemies.contains_key(id) ==> w.tags.contains_key(id)
        && w.tags[id] == CategoryTag::Enemy
    &&& forall|id: u64| #[trigger] w.projectiles.contains_key(id) ==> w.tags.contains_key(id)
        && w.tags[id] == CategoryTag::EnemyProjectile
    &&& w.scorch matches Some(p) ==> w.tags.contains_key(p.0) && w.tags[p.0]
        == CategoryTag::Player
}

/// The in-tick resolution state: the world plus the per-tick buffers
/// (processed pairs, deferred despawns, impulse requests, errors).
#[verifier::ext_equal]
pub struct TickModel {
    pub w: WorldModel,
    /// Normalized id pairs whose contact-start has been resolved this
    /// tick; duplicates are skipped.
    pub seen: Seq<(u64, u64)>,
    /// Entities marked for destruction; applied after all handlers ran.
    pub pending: Seq<u64>,
    pub impulses: Seq<Impulse>,
    pub errors: Seq<ResolveError>,
}

/// An unordered id pair, normalized.
pub open spec fn norm_pair(a: u64, b: u64) -> (u64, u64) {
    if a <= b {
        (a, b)
    } else {
        (b, a)
    }
}

/// The resolution state at the start of a tick.
pub open spec fn init_tick(w: WorldModel) -> TickModel {
    TickModel {
        w,
        seen: Seq::empty(),
        pending: Seq::empty(),
        impulses: Seq::empty(),
        errors: Seq::empty(),
    }
}

/// Every despawn request targets a live, non-player entity.
pub open spec fn pending_ok(t: TickModel) -> bool {
    forall|i: int|
        0 <= i < t.pending.len() ==> t.w.tags.contains_key(#[trigger] t.pending[i])
            && t.w.tags[t.pending[i]] != CategoryTag::Player
}

/// Player–ember contact: the ember is absorbed (despawned) and the
/// player regains one regeneration step of flame.  Without the player
/// singleton the handler reports it and changes nothing.
pub open spec fn player_ember_spec(t: TickModel, ember_id: u64) -> TickModel {
    match t.w.scorch {
        None => TickModel { errors: t.errors.push(ResolveError::MissingSingleton), ..t },
        Some((pid, s)) => TickModel {
            w: WorldModel { scorch: Some((pid, s.regen_spec())), ..t.w },
            pending: t.pending.push(ember_id),
            ..t
        },
    }
}

/// Player–block contact: a burnable, unlit block is ignited at `now`.
/// The player's own state plays no part.
pub open spec fn player_block_spec(t: TickModel, block_id: u64, now: u64) -> TickModel {
    TickModel {
        w: WorldModel {
            blocks: t.w.blocks.insert(block_id, t.w.blocks[block_id].ignited_spec(now)),
            ..t.w
        },
        ..t
    }
}

/// Player–enemy contact: the player takes the enemy's contact damage
/// (subject to the invincibility gate), both sides accrue the
/// damage-per-frame rate, and the enemy takes the fixed contact damage.
/// A lethal hit triggers the death effect and marks the enemy for
/// despawn; otherwise both bodies are knocked apart (the enemy only if
/// movable) and the enemy is stunned.
pub open spec fn player_enemy_spec(
    t: TickModel,
    enemy_id: u64,
    p1x: i64,
    p1y: i64,
    p2x: i64,
    p2y: i64,
    now: u64,
) -> TickModel {
    match t.w.scorch {
        None => TickModel { errors: t.errors.push(ResolveError::MissingSingleton), ..t },
        Some((pid, s)) => {
            let enemy = t.w.enemies[enemy_id];
            let s1 = s.damage_flame_spec(enemy.dmg, now);
            let e1 = enemy.add_dpf_spec(DPF_CONTACT_RATE as int);
            let s2 = s1.add_dpf_spec(DPF_CONTACT_RATE as int);
            if e1.lethal_spec(CONTACT_TICK_DMG) {
                TickModel {
                    w: WorldModel {
                        scorch: Some((pid, s2)),
                        enemies: t.w.enemies.insert(enemy_id, e1.take_dmg_spec(CONTACT_TICK_DMG)),
                        ..t.w
                    },
                    pending: t.pending.push(enemy_id),
                    ..t
                }
            } else {
                let dx = dir_sign_spec(p2x, p1x);
                let dy = dir_sign_spec(p2y, p1y);
                let e2 = e1.take_dmg_spec(CONTACT_TICK_DMG);
                let e3 = EnemyInfo { stunned_until: sat_add_spec(now, STUN_DURATION_MS), ..e2 };
                let imp1 = t.impulses.push(
                    Impulse {
                        target: pid,
                        dx: (dx * KNOCKBACK_IMPULSE) as i64,
                        dy: (dy * KNOCKBACK_IMPULSE) as i64,
                    },
                );
                let imp2 = if e2.moveable {
                    imp1.push(
                        Impulse {
                            target: enemy_id,
                            dx: (-dx * KNOCKBACK_IMPULSE) as i64,
                            dy: (-dy * KNOCKBACK_IMPULSE) as i64,
                        },
                    )
                } else {
                    imp1
                };
                TickModel {
                    w: WorldModel {
                        scorch: Some((pid, s2)),
                        enemies: t.w.enemies.insert(enemy_id, e3),
                        ..t.w
                    },
                    impulses: imp2,
                    ..t
                }
            }
        },
    }
}

/// A lethal hit destroys the enemy: whenever the fixed contact damage
/// of a player–enemy contact would bring the enemy's health to zero,
/// the handler marks it for despawn, so the end-of-tick flush removes
/// it and (with `lemma_marked_entity_untouched`) it reports its death
/// exactly once.
pub proof fn lemma_lethal_contact_marks_enemy(
    t: TickModel,
    enemy_id: u64,
    p1x: i64,
    p1y: i64,
    p2x: i64,
    p2y: i64,
    now: u64,
)
    requires
        t.w.scorch is Some,
        t.w.enemies[enemy_id].lethal_spec(CONTACT_TICK_DMG),
    ensures
        player_enemy_spec(t, enemy_id, p1x, p1y, p2x, p2y, now).pending.contains(enemy_id),
        player_enemy_spec(
            t,
            enemy_id,
            p1x,
            p1y,
            p2x,
            p2y,
            now,
        ).w.enemies[enemy_id].health == 0,
{
}

/// Player–projectile contact: the player takes the projectile's damage
/// (subject to the invincibility gate) and the projectile despawns.
pub open spec fn player_projectile_spec(t: TickModel, proj_id: u64, now: u64) -> TickModel {
    match t.w.scorch {
        None => TickModel { errors: t.errors.push(ResolveError::MissingSingleton), ..t },
        Some((pid, s)) => TickModel {
            w: WorldModel {
                scorch: Some((pid, s.damage_flame_spec(t.w.projectiles[proj_id].dmg_spec(), now))),
                ..t.w
            },
            pending: t.pending.push(proj_id),
            ..t
        },
    }
}

/// Ember–block contact: a burnable, unlit block is ignited; the ember
/// flies on.
pub open spec fn ember_block_spec(t: TickModel, block_id: u64, now: u64) -> TickModel {
    TickModel {
        w: WorldModel {
            blocks: t.w.blocks.insert(block_id, t.w.blocks[block_id].ignited_spec(now)),
            ..t.w
        },
        ..t
    }
}

/// Ember–enemy contact: the enemy takes the fixed ember damage (lethal
/// hits trigger the death effect and mark it for despawn); the ember is
/// consumed either way.
pub open spec fn ember_enemy_spec(t: TickModel, ember_id: u64, enemy_id: u64) -> TickModel {
    let enemy = t.w.enemies[enemy_id];
    let pend = if enemy.lethal_spec(EMBER_IMPACT_DMG) {
        t.pending.push(enemy_id)
    } else {
        t.pending
    };
    TickModel {
        w: WorldModel {
            enemies: t.w.enemies.insert(enemy_id, enemy.take_dmg_spec(EMBER_IMPACT_DMG)),
            ..t.w
        },
        pending: pend.push(ember_id),
        ..t
    }
}

/// Block–projectile contact: blocks stop projectiles; the projectile
/// despawns.
pub open spec fn block_projectile_spec(t: TickModel, proj_id: u64) -> TickModel {
    TickModel { pending: t.pending.push(proj_id), ..t }
}

/// Detection-sensor–enemy contact: the enemy activates.
pub open spec fn sensor_enemy_spec(t: TickModel, enemy_id: u64) -> TickModel {
    TickModel {
        w: WorldModel {
            enemies: t.w.enemies.insert(
                enemy_id,
                EnemyInfo { within_range: true, ..t.w.enemies[enemy_id] },
            ),
            ..t.w
        },
        ..t
    }
}

/// One contact-start event: skip duplicates of an already-resolved pair
/// and pairs touching an entity marked for despawn; report a missing
/// tag; otherwise order the pair by membership bits and apply the
/// handler the category table names.
pub open spec fn step_started_spec(t: TickModel, ev: ContactEvent, now: u64) -> TickModel {
    if t.seen.contains(norm_pair(ev.a, ev.b)) {
        t
    } else {
        let t1 = TickModel { seen: t.seen.push(norm_pair(ev.a, ev.b)), ..t };
        if t1.pending.contains(ev.a) || t1.pending.contains(ev.b) {
            t1
        } else if !t1.w.tags.contains_key(ev.a) {
            TickModel { errors: t1.errors.push(ResolveError::MissingCategoryTag(ev.a)), ..t1 }
        } else if !t1.w.tags.contains_key(ev.b) {
            TickModel { errors: t1.errors.push(ResolveError::MissingCategoryTag(ev.b)), ..t1 }
        } else {
            let ta = t1.w.tags[ev.a];
            let tb = t1.w.tags[ev.b];
            let swap = tag_bits_spec(ta) >= tag_bits_spec(tb);
            let e1 = if swap {
                ev.b
            } else {
                ev.a
            };
            let e2 = if swap {
                ev.a
            } else {
                ev.b
            };
            let p1x = if swap {
                ev.bx
            } else {
                ev.ax
            };
            let p1y = if swap {
                ev.by
            } else {
                ev.ay
            };
            let p2x = if swap {
                ev.ax
            } else {
                ev.bx
            };
            let p2y = if swap {
                ev.ay
            } else {
                ev.by
            };
            match pair_kind_spec(ta, tb) {
                PairKind::PlayerEmber => player_ember_spec(t1, e2),
                PairKind::PlayerBlock => player_block_spec(t1, e2, now),
                PairKind::PlayerEnemy => player_enemy_spec(t1, e2, p1x, p1y, p2x, p2y, now),
                PairKind::PlayerProjectile => player_projectile_spec(t1, e2, now),
                PairKind::EmberBlock => ember_block_spec(t1, e2, now),
                PairKind::EmberEnemy => ember_enemy_spec(t1, e1, e2),
                PairKind::EmberProjectile => t1,
                PairKind::BlockEnemy => t1,
                PairKind::BlockProjectile => block_projectile_spec(t1, e2),
                PairKind::SensorEnemy => sensor_enemy_spec(t1, e2),
                PairKind::Unrecognized => TickModel {
                    errors: t1.errors.push(ResolveError::UnrecognizedPairing(ev.a, ev.b)),
                    ..t1
                },
            }
        }
    }
}

/// One contact-stop event: only the player–enemy pair has an effect;
/// both sides shed the damage-per-frame rate they accrued on start,
/// floored at zero.
pub open spec fn step_stopped_spec(t: TickModel, ev: ContactEvent) -> TickModel {
    if t.pending.contains(ev.a) || t.pending.contains(ev.b) {
        t
    } else if t.w.tags.contains_key(ev.a) && t.w.tags.contains_key(ev.b) && pair_kind_spec(
        t.w.tags[ev.a],
        t.w.tags[ev.b],
    ) == PairKind::PlayerEnemy {
        match t.w.scorch {
            None => t,
            Some((pid, s)) => {
                let enemy_id = if t.w.tags[ev.a] == CategoryTag::Enemy {
                    ev.a
                } else {
                    ev.b
                };
                TickModel {
                    w: WorldModel {
                        scorch: Some((pid, s.add_dpf_spec(-(DPF_CONTACT_RATE as int)))),
                        enemies: t.w.enemies.insert(
                            enemy_id,
                            t.w.enemies[enemy_id].add_dpf_spec(-(DPF_CONTACT_RATE as int)),
                        ),
                        ..t.w
                    },
                    ..t
                }
            },
        }
    } else {
        t
    }
}

/// One contact event of either phase.
pub open spec fn step_spec(t: TickModel, ev: ContactEvent, now: u64) -> TickModel {
    if ev.started {
        step_started_spec(t, ev, now)
    } else {
        step_stopped_spec(t, ev)
    }
}

/// The resolution state after a whole batch of contact events, applied
/// in delivery order.
pub open spec fn resolve_spec(t: TickModel, evs: Seq<ContactEvent>, now: u64) -> TickModel
    decreases evs.len(),
{
    if evs.len() == 0 {
        t
    } else {
        step_spec(resolve_spec(t, evs.drop_last(), now), evs.last(), now)
    }
}

/// The world after the per-tick flame regeneration.
pub open spec fn regen_phase_spec(w: WorldModel) -> WorldModel {
    match w.scorch {
        Some((pid, s)) => WorldModel { scorch: Some((pid, s.regen_spec())), ..w },
        None => w,
    }
}

/// Whether entity `id` is destroyed at the end of a tick whose
/// resolution ended in state `t`: marked by a handler, a block that has
/// burned through, or (when the decay timer fired) an already-weak
/// ember.
pub open spec fn despawned_this_tick(t: TickModel, id: u64, now: u64, fired: bool) -> bool {
    ||| t.pending.contains(id)
    ||| t.w.blocks.contains_key(id) && t.w.blocks[id].burned_out_spec(now)
    ||| fired && t.w.embers.contains_key(id) && t.w.embers[id].state is Weak
}

/// The value an ember holds after a decay firing it survives; a weak
/// ember is left as it is (the firing despawns it instead).
pub open spec fn decayed_value(e: EmberComponent) -> EmberComponent {
    match decay_spec(e.state) {
        Some(n) => EmberComponent { state: n },
        None => e,
    }
}

/// Resolution never enqueues a despawn for a missing or player entity,
/// and never changes the tag registry.
proof fn lemma_step_pending_ok(t: TickModel, ev: ContactEvent, now: u64)
    requires
        model_wf(t.w),
        pending_ok(t),
    ensures
        pending_ok(step_spec(t, ev, now)),
        step_spec(t, ev, now).w.tags == t.w.tags,
{
    let r = step_spec(t, ev, now);
    if ev.started && !t.seen.contains(norm_pair(ev.a, ev.b)) {
        let t1 = TickModel { seen: t.seen.push(norm_pair(ev.a, ev.b)), ..t };
        if !(t1.pending.contains(ev.a) || t1.pending.contains(ev.b)) && t1.w.tags.contains_key(
            ev.a,
        ) && t1.w.tags.contains_key(ev.b) {
            let ta = t1.w.tags[ev.a];
            let tb = t1.w.tags[ev.b];
            assert(tag_backed(t.w, ev.a));
            assert(tag_backed(t.w, ev.b));
            assert forall|i: int| 0 <= i < r.pending.len() implies r.w.tags.contains_key(
                #[trigger] r.pending[i],
            ) && r.w.tags[r.pending[i]] != CategoryTag::Player by {
                if i < t.pending.len() {
                    assert(t.pending[i] == r.pending[i]);
                }
            }
        }
    }
}

/// The ids of all blocks that have burned through by time `now`.
fn scan_expired_blocks(blocks: &Store<BlockInfo>, now: u64) -> (expired: Vec<u64>)
    requires
        blocks.wf(),
    ensures
        forall|id: u64|
            #[trigger] expired@.contains(id) <==> blocks@.contains_key(id)
                && blocks@[id].burned_out_spec(now),
{
    let mut expired: Vec<u64> = Vec::new();
    let n = blocks.len();
    let mut i: usize = 0;
    while i < n
        invariant
            blocks.wf(),
            i <= n,
            n == blocks.entries@.len(),
            forall|id: u64|
                #[trigger] expired@.contains(id) ==> blocks@.contains_key(id)
                    && blocks@[id].burned_out_spec(now),
            forall|j: int|
                0 <= j < i ==> ((#[trigger] blocks.entries@[j]).1.burned_out_spec(now)
                    ==> expired@.contains(blocks.entries@[j].0)),
        decreases n - i,
    {
        let b = blocks.val_at(i);
        if b.burned_out(now) {
            let k = blocks.key_at(i);
            proof {
                crate::store::lemma_assoc_at(blocks.entries@, i as int);
            }
            expired.push(k);
        }
        i = i + 1;
    }
    proof {
        assert forall|id: u64|
            blocks@.contains_key(id) && blocks@[id].burned_out_spec(
                now,
            ) implies #[trigger] expired@.contains(id) by {
            let j = crate::store::idx_of(blocks.entries@, id);
            assert(0 <= j < blocks.entries@.len() && blocks.entries@[j].0 == id);
            crate::store::lemma_assoc_at(blocks.entries@, j);
        }
    }
    expired
}

/// An entity marked for despawn takes part in nothing for the rest of
/// the tick: a contact-start touching it changes only the processed-pair
/// record, so a destroyed enemy is never damaged, knocked back or
/// reported dead a second time.
pub proof fn lemma_marked_entity_untouched(t: TickModel, ev: ContactEvent, now: u64)
    requires
        ev.started,
        t.pending.contains(ev.a) || t.pending.contains(ev.b),
    ensures
        step_spec(t, ev, now).w == t.w,
        step_spec(t, ev, now).pending == t.pending,
        step_spec(t, ev, now).impulses == t.impulses,
        step_spec(t, ev, now).errors == t.errors,
{
}

/// No id appears twice.
pub open spec fn distinct_seq(s: Seq<u64>) -> bool {
    forall|i: int, j: int| 0 <= i < j < s.len() ==> s[i] != s[j]
}

/// One firing of the shared decay timer over every ember, in store
/// order: survivors step one strength down; already-weak embers are
/// reported back for despawn, untouched.
fn decay_embers(embers: &mut Store<EmberComponent>) -> (weak: Vec<u64>)
    requires
        old(embers).wf(),
    ensures
        final(embers).wf(),
        forall|id: u64|
            #[trigger] final(embers)@.contains_key(id) <==> old(embers)@.contains_key(id),
        forall|id: u64|
            #[trigger] old(embers)@.contains_key(id) ==> final(embers)@[id] == decayed_value(
                old(embers)@[id],
            ),
        forall|id: u64|
            #[trigger] weak@.contains(id) <==> old(embers)@.contains_key(id) && old(
                embers,
            )@[id].state is Weak,
{
    let ghost s0 = embers.entries@;
    let mut weak: Vec<u64> = Vec::new();
    let n = embers.len();
    let mut i: usize = 0;
    while i < n
        invariant
            embers.wf(),
            crate::store::keys_unique(s0),
            i <= n,
            n == embers.entries@.len(),
            s0.len() == n,
            forall|j: int| 0 <= j < n ==> (#[trigger] embers.entries@[j]).0 == s0[j].0,
            forall|j: int| i <= j < n ==> (#[trigger] embers.entries@[j]).1 == s0[j].1,
            forall|j: int|
                0 <= j < i ==> (#[trigger] embers.entries@[j]).1 == decayed_value(s0[j].1),
            forall|id: u64|
                #[trigger] weak@.contains(id) ==> crate::store::assoc_map(s0).contains_key(id)
                    && crate::store::assoc_map(s0)[id].state is Weak,
            forall|j: int|
                0 <= j < i && (#[trigger] s0[j]).1.state is Weak ==> weak@.contains(s0[j].0),
        decreases n - i,
    {
        let e = embers.val_at(i);
        let mut e2 = e;
        let destroyed = e2.decay();
        if destroyed {
            let k = embers.key_at(i);
            proof {
                crate::store::lemma_assoc_at(s0, i as int);
            }
            weak.push(k);
        } else {
            embers.set_at(i, e2);
        }
        i = i + 1;
    }
    proof {
        let e1 = embers.entries@;
        assert forall|id: u64| #[trigger] crate::store::has_key(e1, id) implies crate::store::has_key(
            s0,
            id,
        ) by {
            let j = crate::store::idx_of(e1, id);
            assert(0 <= j < e1.len() && e1[j].0 == id);
            assert(s0[j].0 == id);
        }
        assert forall|id: u64| #[trigger] crate::store::has_key(s0, id) implies crate::store::has_key(
            e1,
            id,
        ) by {
            let j = crate::store::idx_of(s0, id);
            assert(0 <= j < s0.len() && s0[j].0 == id);
            assert(e1[j].0 == id);
        }
        assert forall|id: u64| #[trigger]
        crate::store::assoc_map(s0).contains_key(id) implies crate::store::assoc_map(e1)[id]
            == decayed_value(crate::store::assoc_map(s0)[id]) by {
            let j = crate::store::idx_of(s0, id);
            assert(0 <= j < s0.len() && s0[j].0 == id);
            crate::store::lemma_assoc_at(s0, j);
            assert(e1[j].0 == id);
            crate::store::lemma_assoc_at(e1, j);
        }
        assert forall|id: u64|
            crate::store::assoc_map(s0).contains_key(id) && crate::store::assoc_map(
                s0,
            )[id].state is Weak implies #[trigger] weak@.contains(id) by {
            let j = crate::store::idx_of(s0, id);
            assert(0 <= j < s0.len() && s0[j].0 == id);
            crate::store::lemma_assoc_at(s0, j);
        }
    }
    weak
}

/// The despawn requests, impulse requests and resolution errors of one
/// tick, for the physics collaborator to carry out.
pub struct TickEffects {
    pub despawned: Vec<u64>,
    pub impulses: Vec<Impulse>,
    pub errors: Vec<ResolveError>,
}

/// The sign of `b - a`.
fn dir_sign(a: i64, b: i64) -> (r: i64)
    ensures
        r as int == dir_sign_spec(a, b),
{
    if b > a {
        1
    } else if b < a {
        -1
    } else {
        0
    }
}

/// `a + b`, saturating at the top of `u64`.
fn sat_add(a: u64, b: u64) -> (r: u64)
    ensures
        r == sat_add_spec(a, b),
{
    if a <= u64::MAX - b {
        a + b
    } else {
        u64::MAX
    }
}

/// Linear membership scan.
fn vec_contains_u64(v: &Vec<u64>, x: u64) -> (r: bool)
    ensures
        r == v@.contains(x),
{
    let n = v.len();
    let mut i: usize = 0;
    while i < n
        invariant
            i <= n,
            n == v@.len(),
            forall|j: int| 0 <= j < i ==> v@[j] != x,
        decreases n - i,
    {
        if v[i] == x {
            return true;
        }
        i = i + 1;
    }
    false
}

/// Linear membership scan over id pairs.
fn vec_contains_pair(v: &Vec<(u64, u64)>, x: (u64, u64)) -> (r: bool)
    ensures
        r == v@.contains(x),
{
    let n = v.len();
    let mut i: usize = 0;
    while i < n
        invariant
            i <= n,
            n == v@.len(),
            forall|j: int| 0 <= j < i ==> v@[j] != x,
        decreases n - i,
    {
        if v[i].0 == x.0 && v[i].1 == x.1 {
            return true;
        }
        i = i + 1;
    }
    false
}

/// The per-tick resolution buffers.
struct TickBuf {
    seen: Vec<(u64, u64)>,
    pending: Vec<u64>,
    impulses: Vec<Impulse>,
    errors: Vec<ResolveError>,
}

/// The resolution state a world and a buffer stand for.
spec fn tick_of(w: WorldModel, b: TickBuf) -> TickModel {
    TickModel { w, seen: b.seen@, pending: b.pending@, impulses: b.impulses@, errors: b.errors@ }
}

/// The simulation world.
pub struct World {
    tags: Store<CategoryTag>,
    blocks: Store<BlockInfo>,
    embers: Store<EmberComponent>,
    enemies: Store<EnemyInfo>,
    projectiles: Store<ProjectileType>,
    scorch: Option<(u64, Scorch)>,
}

impl View for World {
    type V = WorldModel;

    closed spec fn view(&self) -> WorldModel {
        WorldModel {
            tags: self.tags@,
            blocks: self.blocks@,
            embers: self.embers@,
            enemies: self.enemies@,
            projectiles: self.projectiles@,
            scorch: self.scorch,
        }
    }
}

impl World {
    /// The representation invariant: unique keys per store, and a
    /// well-formed model.  Closed over the representation; callers get it
    /// from `new` and every mutating method preserves it.
    pub closed spec fn wf(self) -> bool {
        &&& self.tags.wf()
        &&& self.blocks.wf()
        &&& self.embers.wf()
        &&& self.enemies.wf()
        &&& self.projectiles.wf()
        &&& model_wf(self@)
    }

    /// An empty world: no bodies, no player.
    pub fn new() -> (w: World)
        ensures
            w.wf(),
            w@.tags == Map::<u64, CategoryTag>::empty(),
            w@.blocks == Map::<u64, BlockInfo>::empty(),
            w@.embers == Map::<u64, EmberComponent>::empty(),
            w@.enemies == Map::<u64, EnemyInfo>::empty(),
            w@.projectiles == Map::<u64, ProjectileType>::empty(),
            w@.scorch is None,
    {
        World {
            tags: Store::new(),
            blocks: Store::new(),
            embers: Store::new(),
            enemies: Store::new(),
            projectiles: Store::new(),
            scorch: None,
        }
    }

    /// The category of entity `id`, if registered.
    pub fn tag_of(&self, id: u64) -> (r: Option<CategoryTag>)
        requires
            self.wf(),
        ensures
            r == if self@.tags.contains_key(id) {
                Some(self@.tags[id])
            } else {
                None::<CategoryTag>
            },
    {
        self.tags.get_copy(id)
    }

    /// The player singleton, if spawned.
    pub fn get_scorch(&self) -> (r: Option<(u64, Scorch)>)
        ensures
            r == self@.scorch,
    {
        self.scorch
    }

    /// Overwrite the player's state; the singleton must be present.
    pub fn set_scorch(&mut self, s: Scorch)
        requires
            old(self).wf(),
            old(self)@.scorch is Some,
        ensures
            final(self).wf(),
            final(self)@ == (WorldModel {
                scorch: Some((scorch_id(old(self)@), s)),
                ..old(self)@
            }),
    {
        match self.scorch {
            Some((pid, _)) => {
                self.scorch = Some((pid, s));
            },
            None => {},
        }
    }

    /// Withdraw the player singleton at a scene transition.  The body's
    /// tag may still be registered with the physics world, so contact
    /// events naming it can still arrive; the resolver then reports
    /// `MissingSingleton` and leaves all state alone.
    pub fn clear_scorch(&mut self)
        requires
            old(self).wf(),
        ensures
            final(self).wf(),
            final(self)@ == (WorldModel { scorch: None, ..old(self)@ }),
    {
        self.scorch = None;
        proof {
            assert forall|id2: u64| #[trigger]
            self@.tags.contains_key(id2) implies tag_backed(self@, id2) by {
                assert(tag_backed(old(self)@, id2));
            }
        }
    }

    /// The block state of entity `id`, if any.
    pub fn get_block(&self, id: u64) -> (r: Option<BlockInfo>)
        requires
            self.wf(),
        ensures
            r == if self@.blocks.contains_key(id) {
                Some(self@.blocks[id])
            } else {
                None::<BlockInfo>
            },
    {
        self.blocks.get_copy(id)
    }

    /// The ember state of entity `id`, if any.
    pub fn get_ember(&self, id: u64) -> (r: Option<EmberComponent>)
        requires
            self.wf(),
        ensures
            r == if self@.embers.contains_key(id) {
                Some(self@.embers[id])
            } else {
                None::<EmberComponent>
            },
    {
        self.embers.get_copy(id)
    }

    /// The enemy state of entity `id`, if any.
    pub fn get_enemy(&self, id: u64) -> (r: Option<EnemyInfo>)
        requires
            self.wf(),
        ensures
            r == if self@.enemies.contains_key(id) {
                Some(self@.enemies[id])
            } else {
                None::<EnemyInfo>
            },
    {
        self.enemies.get_copy(id)
    }

    /// The projectile state of entity `id`, if any.
    pub fn get_projectile(&self, id: u64) -> (r: Option<ProjectileType>)
        requires
            self.wf(),
        ensures
            r == if self@.projectiles.contains_key(id) {
                Some(self@.projectiles[id])
            } else {
                None::<ProjectileType>
            },
    {
        self.projectiles.get_copy(id)
    }

    /// Spawn the player.  There must not be one yet, and `id` must be
    /// fresh.
    pub fn spawn_scorch(&mut self, id: u64, s: Scorch)
        requires
            old(self).wf(),
            old(self)@.scorch is None,
            !old(self)@.tags.contains_key(id),
            forall|x: u64|
                #[trigger] old(self)@.tags.contains_key(x) ==> old(self)@.tags[x]
                    != CategoryTag::Player,
        ensures
            final(self).wf(),
            final(self)@ == (WorldModel {
                tags: old(self)@.tags.insert(id, CategoryTag::Player),
                scorch: Some((id, s)),
                ..old(self)@
            }),
    {
        self.tags.insert_new(id, CategoryTag::Player);
        self.scorch = Some((id, s));
    }

    /// Register the player's detection sensor under a fresh `id`.
    pub fn spawn_sensor(&mut self, id: u64)
        requires
            old(self).wf(),
            !old(self)@.tags.contains_key(id),
        ensures
            final(self).wf(),
            final(self)@ == (WorldModel {
                tags: old(self)@.tags.insert(id, CategoryTag::DetectionSensor),
                ..old(self)@
            }),
    {
        self.tags.insert_new(id, CategoryTag::DetectionSensor);
    }

    /// Spawn a block under a fresh `id`.
    pub fn spawn_block(&mut self, id: u64, b: BlockInfo)
        requires
            old(self).wf(),
            !old(self)@.tags.contains_key(id),
        ensures
            final(self).wf(),
            final(self)@ == (WorldModel {
                tags: old(self)@.tags.insert(id, CategoryTag::Block),
                blocks: old(self)@.blocks.insert(id, b),
                ..old(self)@
            }),
    {
        proof {
            assert(!self@.blocks.contains_key(id));
        }
        self.tags.insert_new(id, CategoryTag::Block);
        self.blocks.insert_new(id, b);
    }

    /// Spawn an ember under a fresh `id`.
    pub fn spawn_ember(&mut self, id: u64, e: EmberComponent)
        requires
            old(self).wf(),
            !old(self)@.tags.contains_key(id),
        ensures
            final(self).wf(),
            final(self)@ == (WorldModel {
                tags: old(self)@.tags.insert(id, CategoryTag::Ember),
                embers: old(self)@.embers.insert(id, e),
                ..old(self)@
            }),
    {
        proof {
            assert(!self@.embers.contains_key(id));
        }
        self.tags.insert_new(id, CategoryTag::Ember);
        self.embers.insert_new(id, e);
    }

    /// Spawn an enemy under a fresh `id`.
    pub fn spawn_enemy(&mut self, id: u64, e: EnemyInfo)
        requires
            old(self).wf(),
            !old(self)@.tags.contains_key(id),
        ensures
            final(self).wf(),
            final(self)@ == (WorldModel {
                tags: old(self)@.tags.insert(id, CategoryTag::Enemy),
                enemies: old(self)@.enemies.insert(id, e),
                ..old(self)@
            }),
    {
        proof {
            assert(!self@.enemies.contains_key(id));
        }
        self.tags.insert_new(id, CategoryTag::Enemy);
        self.enemies.insert_new(id, e);
    }

    /// Spawn an enemy projectile under a fresh `id`.
    pub fn spawn_projectile(&mut self, id: u64, p: ProjectileType)
        requires
            old(self).wf(),
            !old(self)@.tags.contains_key(id),
        ensures
            final(self).wf(),
            final(self)@ == (WorldModel {
                tags: old(self)@.tags.insert(id, CategoryTag::EnemyProjectile),
                projectiles: old(self)@.projectiles.insert(id, p),
                ..old(self)@
            }),
    {
        proof {
            assert(!self@.projectiles.contains_key(id));
        }
        self.tags.insert_new(id, CategoryTag::EnemyProjectile);
        self.projectiles.insert_new(id, p);
    }

    /// The player's extinguish action, after the engine's raycast found
    /// block `id`: an extinguishable block is put out.
    pub fn extinguish_block(&mut self, id: u64)
        requires
            old(self).wf(),
        ensures
            final(self).wf(),
            final(self)@ == if old(self)@.blocks.contains_key(id) {
                WorldModel {
                    blocks: old(self)@.blocks.insert(
                        id,
                        old(self)@.blocks[id].extinguished_spec(),
                    ),
                    ..old(self)@
                }
            } else {
                old(self)@
            },
    {
        match self.blocks.get_copy(id) {
            Some(mut b) => {
                b.extinguish();
                self.blocks.set(id, b);
                proof {
                    assert(final(self)@ =~= (WorldModel {
                        blocks: old(self)@.blocks.insert(
                            id,
                            old(self)@.blocks[id].extinguished_spec(),
                        ),
                        ..old(self)@
                    }));
                }
            },
            None => {
                proof {
                    assert(final(self)@ =~= old(self)@);
                }
            },
        }
    }

    /// Player absorbs an ember: despawn it, regain flame.
    fn handle_player_ember(&mut self, buf: &mut TickBuf, ember_id: u64)
        requires
            old(self).wf(),
            old(self)@.tags.contains_key(ember_id),
            old(self)@.tags[ember_id] == CategoryTag::Ember,
        ensures
            final(self).wf(),
            tick_of(final(self)@, *final(buf)) == player_ember_spec(
                tick_of(old(self)@, *old(buf)),
                ember_id,
            ),
    {
        match self.scorch {
            None => {
                buf.errors.push(ResolveError::MissingSingleton);
            },
            Some((pid, s)) => {
                let mut s2 = s;
                s2.regen_flame();
                self.scorch = Some((pid, s2));
                buf.pending.push(ember_id);
            },
        }
    }

    /// A body ignites a burnable, unlit block.
    fn ignite_block(&mut self, block_id: u64, now: u64)
        requires
            old(self).wf(),
            old(self)@.tags.contains_key(block_id),
            old(self)@.tags[block_id] == CategoryTag::Block,
        ensures
            final(self).wf(),
            final(self)@ == (WorldModel {
                blocks: old(self)@.blocks.insert(
                    block_id,
                    old(self)@.blocks[block_id].ignited_spec(now),
                ),
                ..old(self)@
            }),
    {
        proof {
            assert(self@.blocks.contains_key(block_id));
        }
        let mut b = self.blocks.get_copy(block_id).unwrap();
        b.set_burn(now);
        self.blocks.set(block_id, b);
    }

    /// Player–enemy contact start: mutual damage, accrual, knockback,
    /// stun.
    fn handle_player_enemy(
        &mut self,
        buf: &mut TickBuf,
        enemy_id: u64,
        p1x: i64,
        p1y: i64,
        p2x: i64,
        p2y: i64,
        now: u64,
    )
        requires
            old(self).wf(),
            old(self)@.tags.contains_key(enemy_id),
            old(self)@.tags[enemy_id] == CategoryTag::Enemy,
        ensures
            final(self).wf(),
            tick_of(final(self)@, *final(buf)) == player_enemy_spec(
                tick_of(old(self)@, *old(buf)),
                enemy_id,
                p1x,
                p1y,
                p2x,
                p2y,
                now,
            ),
    {
        match self.scorch {
            None => {
                buf.errors.push(ResolveError::MissingSingleton);
            },
            Some((pid, s)) => {
                proof {
                    assert(self@.enemies.contains_key(enemy_id));
                }
                let mut s2 = s;
                let mut enemy = self.enemies.get_copy(enemy_id).unwrap();
                s2.damage_flame(enemy.contact_dmg(), now);
                enemy.add_dpf(DPF_CONTACT_RATE);
                s2.add_dpf(DPF_CONTACT_RATE);
                let lethal = enemy.take_dmg(CONTACT_TICK_DMG);
                if lethal {
                    enemy.death_effect();
                    self.enemies.set(enemy_id, enemy);
                    self.scorch = Some((pid, s2));
                    buf.pending.push(enemy_id);
                } else {
                    let dx = dir_sign(p2x, p1x);
                    let dy = dir_sign(p2y, p1y);
                    buf.impulses.push(
                        Impulse {
                            target: pid,
                            dx: dx * KNOCKBACK_IMPULSE,
                            dy: dy * KNOCKBACK_IMPULSE,
                        },
                    );
                    if enemy.is_moveable() {
                        buf.impulses.push(
                            Impulse {
                                target: enemy_id,
                                dx: -dx * KNOCKBACK_IMPULSE,
                                dy: -dy * KNOCKBACK_IMPULSE,
                            },
                        );
                    }
                    enemy.stun_until(sat_add(now, STUN_DURATION_MS));
                    self.enemies.set(enemy_id, enemy);
                    self.scorch = Some((pid, s2));
                }
            },
        }
    }

    /// A projectile hits the player: damage (gated) and despawn.
    fn handle_player_projectile(&mut self, buf: &mut TickBuf, proj_id: u64, now: u64)
        requires
            old(self).wf(),
            old(self)@.tags.contains_key(proj_id),
            old(self)@.tags[proj_id] == CategoryTag::EnemyProjectile,
        ensures
            final(self).wf(),
            tick_of(final(self)@, *final(buf)) == player_projectile_spec(
                tick_of(old(self)@, *old(buf)),
                proj_id,
                now,
            ),
    {
        match self.scorch {
            None => {
                buf.errors.push(ResolveError::MissingSingleton);
            },
            Some((pid, s)) => {
                proof {
                    assert(self@.projectiles.contains_key(proj_id));
                }
                let p = self.projectiles.get_copy(proj_id).unwrap();
                let mut s2 = s;
                s2.damage_flame(p.get_dmg(), now);
                self.scorch = Some((pid, s2));
                buf.pending.push(proj_id);
            },
        }
    }

    /// An ember strikes an enemy: fixed damage, ember consumed.
    fn handle_ember_enemy(&mut self, buf: &mut TickBuf, ember_id: u64, enemy_id: u64)
        requires
            old(self).wf(),
            old(self)@.tags.contains_key(enemy_id),
            old(self)@.tags[enemy_id] == CategoryTag::Enemy,
            old(self)@.tags.contains_key(ember_id),
            old(self)@.tags[ember_id] == CategoryTag::Ember,
        ensures
            final(self).wf(),
            tick_of(final(self)@, *final(buf)) == ember_enemy_spec(
                tick_of(old(self)@, *old(buf)),
                ember_id,
                enemy_id,
            ),
    {
        proof {
            assert(self@.enemies.contains_key(enemy_id));
        }
        let mut enemy = self.enemies.get_copy(enemy_id).unwrap();
        let lethal = enemy.take_dmg(EMBER_IMPACT_DMG);
        if lethal {
            enemy.death_effect();
            buf.pending.push(enemy_id);
        }
        self.enemies.set(enemy_id, enemy);
        buf.pending.push(ember_id);
    }

    /// An enemy enters the player's detection radius: activate it.
    fn handle_sensor_enemy(&mut self, enemy_id: u64)
        requires
            old(self).wf(),
            old(self)@.tags.contains_key(enemy_id),
            old(self)@.tags[enemy_id] == CategoryTag::Enemy,
        ensures
            final(self).wf(),
            final(self)@ == (WorldModel {
                enemies: old(self)@.enemies.insert(
                    enemy_id,
                    EnemyInfo { within_range: true, ..old(self)@.enemies[enemy_id] },
                ),
                ..old(self)@
            }),
    {
        proof {
            assert(self@.enemies.contains_key(enemy_id));
        }
        let mut enemy = self.enemies.get_copy(enemy_id).unwrap();
        enemy.set_active();
        self.enemies.set(enemy_id, enemy);
    }

    /// Apply a batch of despawn requests: each listed entity still
    /// present loses its tag and its component, once, and is reported in
    /// `despawned`.  The player is never flushed.
    fn flush_ids(&mut self, ids: &Vec<u64>, despawned: &mut Vec<u64>)
        requires
            old(self).wf(),
            forall|j: int|
                0 <= j < ids@.len() ==> (old(self)@.tags.contains_key(#[trigger] ids@[j]) ==> old(self)@.tags[ids@[j]] != CategoryTag::Player),
            forall|j: int|
                0 <= j < old(despawned)@.len() ==> !old(self)@.tags.contains_key(
                    #[trigger] old(despawned)@[j],
                ),
            distinct_seq(old(despawned)@),
        ensures
            final(self).wf(),
            final(self)@.scorch == old(self)@.scorch,
            forall|id: u64|
                #![trigger final(self)@.tags.contains_key(id)]
                #![trigger old(self)@.tags.contains_key(id)]
                (final(self)@.tags.contains_key(id) <==> old(self)@.tags.contains_key(id)
                    && !ids@.contains(id)),
            forall|id: u64|
                #[trigger] final(self)@.tags.contains_key(id) ==> final(self)@.tags[id] == old(self)@.tags[id],
            forall|id: u64|
                #![trigger final(self)@.blocks.contains_key(id)]
                #![trigger old(self)@.blocks.contains_key(id)]
                (final(self)@.blocks.contains_key(id) <==> old(self)@.blocks.contains_key(id)
                    && !ids@.contains(id)),
            forall|id: u64|
                #[trigger] final(self)@.blocks.contains_key(id) ==> final(self)@.blocks[id] == old(self)@.blocks[id],
            forall|id: u64|
                #![trigger final(self)@.embers.contains_key(id)]
                #![trigger old(self)@.embers.contains_key(id)]
                (final(self)@.embers.contains_key(id) <==> old(self)@.embers.contains_key(id)
                    && !ids@.contains(id)),
            forall|id: u64|
                #[trigger] final(self)@.embers.contains_key(id) ==> final(self)@.embers[id] == old(self)@.embers[id],
            forall|id: u64|
                #![trigger final(self)@.enemies.contains_key(id)]
                #![trigger old(self)@.enemies.contains_key(id)]
                (final(self)@.enemies.contains_key(id) <==> old(self)@.enemies.contains_key(id)
                    && !ids@.contains(id)),
            forall|id: u64|
                #[trigger] final(self)@.enemies.contains_key(id) ==> final(self)@.enemies[id]
                    == old(self)@.enemies[id],
            forall|id: u64|
                #![trigger final(self)@.projectiles.contains_key(id)]
                #![trigger old(self)@.projectiles.contains_key(id)]
                (final(self)@.projectiles.contains_key(id) <==> old(self)@.projectiles.contains_key(
                    id,
                ) && !ids@.contains(id)),
            forall|id: u64|
                #[trigger] final(self)@.projectiles.contains_key(id) ==> final(self)@.projectiles[id] == old(self)@.projectiles[id],
            forall|id: u64|
                #[trigger] final(despawned)@.contains(id) <==> (old(despawned)@.contains(id) || (
                old(self)@.tags.contains_key(id) && ids@.contains(id))),
            forall|j: int|
                0 <= j < final(despawned)@.len() ==> !final(self)@.tags.contains_key(
                    #[trigger] final(despawned)@[j],
                ),
            distinct_seq(final(despawned)@),
    {
        let n = ids.len();
        let mut k: usize = 0;
        while k < n
            invariant
                self.wf(),
                k <= n,
                n == ids@.len(),
                self@.scorch == old(self)@.scorch,
                forall|j: int|
                    0 <= j < ids@.len() ==> (old(self)@.tags.contains_key(#[trigger] ids@[j])
                        ==> old(self)@.tags[ids@[j]] != CategoryTag::Player),
                forall|id: u64|
                    #![trigger self@.tags.contains_key(id)]
                    #![trigger old(self)@.tags.contains_key(id)]
                    (self@.tags.contains_key(id) <==> old(self)@.tags.contains_key(id)
                        && !ids@.take(k as int).contains(id)),
                forall|id: u64|
                    #[trigger] self@.tags.contains_key(id) ==> self@.tags[id] == old(self)@.tags[id],
                forall|id: u64|
                    #![trigger self@.blocks.contains_key(id)]
                    #![trigger old(self)@.blocks.contains_key(id)]
                    (self@.blocks.contains_key(id) <==> old(self)@.blocks.contains_key(id)
                        && !ids@.take(k as int).contains(id)),
                forall|id: u64|
                    #[trigger] self@.blocks.contains_key(id) ==> self@.blocks[id] == old(self)@.blocks[id],
                forall|id: u64|
                    #![trigger self@.embers.contains_key(id)]
                    #![trigger old(self)@.embers.contains_key(id)]
                    (self@.embers.contains_key(id) <==> old(self)@.embers.contains_key(id)
                        && !ids@.take(k as int).contains(id)),
                forall|id: u64|
                    #[trigger] self@.embers.contains_key(id) ==> self@.embers[id] == old(self)@.embers[id],
                forall|id: u64|
                    #![trigger self@.enemies.contains_key(id)]
                    #![trigger old(self)@.enemies.contains_key(id)]
                    (self@.enemies.contains_key(id) <==> old(self)@.enemies.contains_key(id)
                        && !ids@.take(k as int).contains(id)),
                forall|id: u64|
                    #[trigger] self@.enemies.contains_key(id) ==> self@.enemies[id] == old(self)@.enemies[id],
                forall|id: u64|
                    #![trigger self@.projectiles.contains_key(id)]
                    #![trigger old(self)@.projectiles.contains_key(id)]
                    (self@.projectiles.contains_key(id) <==> old(self)@.projectiles.contains_key(id)
                        && !ids@.take(k as int).contains(id)),
                forall|id: u64|
                    #[trigger] self@.projectiles.contains_key(id) ==> self@.projectiles[id] == old(self)@.projectiles[id],
                forall|id: u64|
                    #[trigger] despawned@.contains(id) <==> (old(despawned)@.contains(id) || (old(self)@.tags.contains_key(id) && ids@.take(k as int).contains(id))),
                forall|j: int|
                    0 <= j < despawned@.len() ==> !self@.tags.contains_key(
                        #[trigger] despawned@[j],
                    ),
                distinct_seq(despawned@),
            decreases n - k,
        {
            let id = ids[k];
            proof {
                assert(ids@.take(k as int + 1) =~= ids@.take(k as int).push(ids@[k as int]));
            }
            if self.tags.contains(id) {
                proof {
                    assert(old(self)@.tags.contains_key(id));
                    assert(self@.tags[id] != CategoryTag::Player);
                }
                let ghost wpre = self@;
                self.tags.remove_id(id);
                self.blocks.remove_id(id);
                self.embers.remove_id(id);
                self.enemies.remove_id(id);
                self.projectiles.remove_id(id);
                despawned.push(id);
                proof {
                    match wpre.scorch {
                        Some(p) => {
                            assert(wpre.tags.contains_key(p.0) && wpre.tags[p.0]
                                == CategoryTag::Player);
                            assert(p.0 != id);
                        },
                        None => {},
                    }
                    assert forall|id2: u64| #[trigger]
                    self@.tags.contains_key(id2) implies tag_backed(self@, id2) by {
                        assert(wpre.tags.contains_key(id2));
                        assert(tag_backed(wpre, id2));
                        assert(id2 != id);
                    }
                    assert forall|id2: u64| #[trigger]
                    self@.blocks.contains_key(id2) implies self@.blocks[id2] == old(
                        self,
                    )@.blocks[id2] && wpre.blocks.contains_key(id2) by {
                        assert(wpre.blocks.contains_key(id2));
                    }
                    assert forall|id2: u64| #[trigger]
                    self@.embers.contains_key(id2) implies self@.embers[id2] == old(
                        self,
                    )@.embers[id2] && wpre.embers.contains_key(id2) by {
                        assert(wpre.embers.contains_key(id2));
                    }
                    assert forall|id2: u64| #[trigger]
                    self@.enemies.contains_key(id2) implies self@.enemies[id2] == old(
                        self,
                    )@.enemies[id2] && wpre.enemies.contains_key(id2) by {
                        assert(wpre.enemies.contains_key(id2));
                    }
                    assert forall|id2: u64| #[trigger]
                    self@.projectiles.contains_key(id2) implies self@.projectiles[id2] == old(
                        self,
                    )@.projectiles[id2] && wpre.projectiles.contains_key(id2) by {
                        assert(wpre.projectiles.contains_key(id2));
                    }
                    assert(self.wf());
                }
            }
            k = k + 1;
        }
        proof {
            assert(ids@.take(n as int) =~= ids@);
        }
    }

    /// Run one simulation tick at time `now`: resolve the batch of
    /// contact events in delivery order (each physical pair at most once,
    /// despawns deferred), then the continuous systems — flame
    /// regeneration, burn-timer expiry, and ember decay when the shared
    /// decay timer fired — and finally flush all despawns.  Returns the
    /// despawn requests, impulse requests and resolution errors for the
    /// physics collaborator.
    pub fn run_tick(&mut self, events: &Vec<ContactEvent>, now: u64, decay_fires: bool) -> (fx:
        TickEffects)
        requires
            old(self).wf(),
        ensures
            final(self).wf(),
            ({
                let t = resolve_spec(init_tick(old(self)@), events@, now);
                &&& fx.impulses@ == t.impulses
                &&& fx.errors@ == t.errors
                &&& final(self)@.scorch == regen_phase_spec(t.w).scorch
                &&& forall|id: u64|
                    #![trigger final(self)@.tags.contains_key(id)]
                    #![trigger t.w.tags.contains_key(id)]
                    (final(self)@.tags.contains_key(id) <==> t.w.tags.contains_key(id)
                        && !despawned_this_tick(t, id, now, decay_fires))
                &&& forall|id: u64|
                    #[trigger] final(self)@.tags.contains_key(id) ==> final(self)@.tags[id]
                        == t.w.tags[id]
                &&& forall|id: u64|
                    #![trigger final(self)@.blocks.contains_key(id)]
                    #![trigger t.w.blocks.contains_key(id)]
                    (final(self)@.blocks.contains_key(id) <==> t.w.blocks.contains_key(id)
                        && !despawned_this_tick(t, id, now, decay_fires))
                &&& forall|id: u64|
                    #[trigger] final(self)@.blocks.contains_key(id) ==> final(self)@.blocks[id]
                        == t.w.blocks[id]
                &&& forall|id: u64|
                    #![trigger final(self)@.embers.contains_key(id)]
                    #![trigger t.w.embers.contains_key(id)]
                    (final(self)@.embers.contains_key(id) <==> t.w.embers.contains_key(id)
                        && !despawned_this_tick(t, id, now, decay_fires))
                &&& forall|id: u64|
                    #[trigger] final(self)@.embers.contains_key(id) ==> final(self)@.embers[id]
                        == if decay_fires {
                        decayed_value(t.w.embers[id])
                    } else {
                        t.w.embers[id]
                    }
                &&& forall|id: u64|
                    #![trigger final(self)@.enemies.contains_key(id)]
                    #![trigger t.w.enemies.contains_key(id)]
                    (final(self)@.enemies.contains_key(id) <==> t.w.enemies.contains_key(id)
                        && !despawned_this_tick(t, id, now, decay_fires))
                &&& forall|id: u64|
                    #[trigger] final(self)@.enemies.contains_key(id) ==> final(self)@.enemies[id]
                        == t.w.enemies[id]
                &&& forall|id: u64|
                    #![trigger final(self)@.projectiles.contains_key(id)]
                    #![trigger t.w.projectiles.contains_key(id)]
                    (final(self)@.projectiles.contains_key(id) <==> t.w.projectiles.contains_key(id)
                        && !despawned_this_tick(t, id, now, decay_fires))
                &&& forall|id: u64|
                    #[trigger] final(self)@.projectiles.contains_key(id) ==> final(self)@.projectiles[id] == t.w.projectiles[id]
                &&& forall|id: u64|
                    #[trigger] fx.despawned@.contains(id) <==> (t.w.tags.contains_key(id)
                        && despawned_this_tick(t, id, now, decay_fires))
                &&& distinct_seq(fx.despawned@)
            }),
    {
        let ghost w0 = self@;
        let mut buf = TickBuf {
            seen: Vec::new(),
            pending: Vec::new(),
            impulses: Vec::new(),
            errors: Vec::new(),
        };
        proof {
            assert(tick_of(self@, buf) =~= init_tick(w0));
        }
        let n = events.len();
        let mut i: usize = 0;
        while i < n
            invariant
                self.wf(),
                i <= n,
                n == events@.len(),
                tick_of(self@, buf) == resolve_spec(init_tick(w0), events@.take(i as int), now),
                pending_ok(tick_of(self@, buf)),
            decreases n - i,
        {
            proof {
                assert(events@.take(i as int + 1).drop_last() =~= events@.take(i as int));
                assert(events@.take(i as int + 1).last() == events@[i as int]);
                lemma_step_pending_ok(tick_of(self@, buf), events@[i as int], now);
            }
            self.apply_event(&mut buf, &events[i], now);
            i = i + 1;
        }
        proof {
            assert(events@.take(n as int) =~= events@);
        }
        let ghost t = resolve_spec(init_tick(w0), events@, now);
        proof {
            assert(tick_of(self@, buf) == t);
            assert(t.w == self@);
        }
        // Continuous systems: flame regeneration.
        match self.scorch {
            Some((pid, s)) => {
                let mut s2 = s;
                s2.regen_flame();
                self.scorch = Some((pid, s2));
            },
            None => {},
        }
        proof {
            assert(self@ =~= regen_phase_spec(t.w));
            assert forall|id2: u64| #[trigger]
            self@.tags.contains_key(id2) implies tag_backed(self@, id2) by {
                assert(tag_backed(t.w, id2));
            }
            assert(self.wf());
        }
        // Continuous systems: burn-timer expiry and ember decay.
        let expired = scan_expired_blocks(&self.blocks, now);
        let weak: Vec<u64> = if decay_fires {
            let weak = decay_embers(&mut self.embers);
            proof {
                assert forall|id2: u64| #[trigger]
                self@.tags.contains_key(id2) implies tag_backed(self@, id2) by {
                    assert(tag_backed(regen_phase_spec(t.w), id2));
                }
                assert(self.wf());
            }
            weak
        } else {
            Vec::new()
        };
        // Deferred despawn flush.
        let ghost wpre = self@;
        let mut despawned: Vec<u64> = Vec::new();
        proof {
            assert forall|j: int|
                0 <= j < buf.pending@.len() implies (self@.tags.contains_key(
                #[trigger] buf.pending@[j],
            ) ==> self@.tags[buf.pending@[j]] != CategoryTag::Player) by {
                assert(t.w.tags.contains_key(buf.pending@[j]) && t.w.tags[buf.pending@[j]]
                    != CategoryTag::Player);
            }
        }
        self.flush_ids(&buf.pending, &mut despawned);
        proof {
            assert forall|j: int|
                0 <= j < expired@.len() implies (self@.tags.contains_key(#[trigger] expired@[j])
                    ==> self@.tags[expired@[j]] != CategoryTag::Player) by {
                assert(expired@.contains(expired@[j]));
                assert(t.w.blocks.contains_key(expired@[j]));
                assert(wpre.tags[expired@[j]] == CategoryTag::Block);
            }
        }
        self.flush_ids(&expired, &mut despawned);
        proof {
            assert forall|j: int|
                0 <= j < weak@.len() implies (self@.tags.contains_key(#[trigger] weak@[j])
                    ==> self@.tags[weak@[j]] != CategoryTag::Player) by {
                assert(weak@.contains(weak@[j]));
                assert(t.w.embers.contains_key(weak@[j]));
                assert(wpre.tags[weak@[j]] == CategoryTag::Ember);
            }
        }
        self.flush_ids(&weak, &mut despawned);
        proof {
            assert forall|id: u64| #[trigger]
            despawned@.contains(id) implies (t.w.tags.contains_key(id) && despawned_this_tick(
                t,
                id,
                now,
                decay_fires,
            )) by {}
            assert forall|id: u64|
                t.w.tags.contains_key(id) && despawned_this_tick(
                    t,
                    id,
                    now,
                    decay_fires,
                ) implies #[trigger] despawned@.contains(id) by {}
        }
        TickEffects { despawned, impulses: buf.impulses, errors: buf.errors }
    }

    /// A copy of every enemy with its id, in spawn order, for the
    /// movement collaborator to walk.
    pub fn enemies_snapshot(&self) -> (v: Vec<(u64, EnemyInfo)>)
        requires
            self.wf(),
        ensures
            forall|j: int|
                0 <= j < v@.len() ==> self@.enemies.contains_key((#[trigger] v@[j]).0)
                    && self@.enemies[v@[j].0] == v@[j].1,
            forall|id: u64|
                #[trigger] self@.enemies.contains_key(id) ==> exists|j: int|
                    0 <= j < v@.len() && (#[trigger] v@[j]) == (id, self@.enemies[id]),
    {
        let mut v: Vec<(u64, EnemyInfo)> = Vec::new();
        let n = self.enemies.len();
        let mut i: usize = 0;
        while i < n
            invariant
                self.wf(),
                i <= n,
                n == self.enemies.entries@.len(),
                v@.len() == i,
                forall|j: int| 0 <= j < i ==> v@[j] == self.enemies.entries@[j],
                forall|j: int|
                    0 <= j < v@.len() ==> self@.enemies.contains_key((#[trigger] v@[j]).0)
                        && self@.enemies[v@[j].0] == v@[j].1,
            decreases n - i,
        {
            let k = self.enemies.key_at(i);
            let e = self.enemies.val_at(i);
            proof {
                crate::store::lemma_assoc_at(self.enemies.entries@, i as int);
            }
            v.push((k, e));
            i = i + 1;
        }
        proof {
            assert forall|id: u64| #[trigger] self@.enemies.contains_key(id) implies exists|j: int|
                0 <= j < v@.len() && (#[trigger] v@[j]) == (id, self@.enemies[id]) by {
                let j = crate::store::idx_of(self.enemies.entries@, id);
                assert(0 <= j < self.enemies.entries@.len() && self.enemies.entries@[j].0 == id);
                crate::store::lemma_assoc_at(self.enemies.entries@, j);
                assert(v@[j] == (id, self@.enemies[id]));
            }
        }
        v
    }

    /// Decide enemy `id`'s movement and attack for this frame (see
    /// `EnemyInfo::movement_decision`), against the stored state.
    /// Returns `None` for an unknown enemy.
    pub fn enemy_movement(
        &mut self,
        id: u64,
        now: u64,
        dist_to_player: u64,
        has_los: bool,
    ) -> (a: Option<crate::enemies::EnemyAction>)
        requires
            old(self).wf(),
        ensures
            final(self).wf(),
            match a {
                Some(act) => old(self)@.enemies.contains_key(id) && act == old(
                    self,
                )@.enemies[id].movement_action_spec(now, dist_to_player, has_los) && final(self)@
                    == (WorldModel {
                    enemies: old(self)@.enemies.insert(
                        id,
                        old(self)@.enemies[id].movement_next_spec(now, dist_to_player, has_los),
                    ),
                    ..old(self)@
                }),
                None => !old(self)@.enemies.contains_key(id) && *final(self) == *old(self),
            },
    {
        match self.enemies.get_copy(id) {
            Some(e) => {
                let mut e2 = e;
                let act = e2.movement_decision(now, dist_to_player, has_los);
                self.enemies.set(id, e2);
                Some(act)
            },
            None => None,
        }
    }

    /// Resolve one contact event against the current tick state.
    fn apply_event(&mut self, buf: &mut TickBuf, ev: &ContactEvent, now: u64)
        requires
            old(self).wf(),
        ensures
            final(self).wf(),
            tick_of(final(self)@, *final(buf)) == step_spec(
                tick_of(old(self)@, *old(buf)),
                *ev,
                now,
            ),
    {
        if ev.started {
            let key = if ev.a <= ev.b {
                (ev.a, ev.b)
            } else {
                (ev.b, ev.a)
            };
            if vec_contains_pair(&buf.seen, key) {
                return;
            }
            buf.seen.push(key);
            if vec_contains_u64(&buf.pending, ev.a) || vec_contains_u64(&buf.pending, ev.b) {
                return;
            }
            let ta = match self.tags.get_copy(ev.a) {
                Some(t) => t,
                None => {
                    buf.errors.push(ResolveError::MissingCategoryTag(ev.a));
                    return;
                },
            };
            let tb = match self.tags.get_copy(ev.b) {
                Some(t) => t,
                None => {
                    buf.errors.push(ResolveError::MissingCategoryTag(ev.b));
                    return;
                },
            };
            let swap = tag_bits(ta) >= tag_bits(tb);
            let e1 = if swap {
                ev.b
            } else {
                ev.a
            };
            let e2 = if swap {
                ev.a
            } else {
                ev.b
            };
            let p1x = if swap {
                ev.bx
            } else {
                ev.ax
            };
            let p1y = if swap {
                ev.by
            } else {
                ev.ay
            };
            let p2x = if swap {
                ev.ax
            } else {
                ev.bx
            };
            let p2y = if swap {
                ev.ay
            } else {
                ev.by
            };
            match crate::tags::classify(ta, tb) {
                PairKind::PlayerEmber => self.handle_player_ember(buf, e2),
                PairKind::PlayerBlock => self.ignite_block(e2, now),
                PairKind::PlayerEnemy => self.handle_player_enemy(buf, e2, p1x, p1y, p2x, p2y, now),
                PairKind::PlayerProjectile => self.handle_player_projectile(buf, e2, now),
                PairKind::EmberBlock => self.ignite_block(e2, now),
                PairKind::EmberEnemy => self.handle_ember_enemy(buf, e1, e2),
                PairKind::EmberProjectile => {},
                PairKind::BlockEnemy => {},
                PairKind::BlockProjectile => {
                    buf.pending.push(e2);
                },
                PairKind::SensorEnemy => self.handle_sensor_enemy(e2),
                PairKind::Unrecognized => {
                    buf.errors.push(ResolveError::UnrecognizedPairing(ev.a, ev.b));
                },
            }
        } else {
            if vec_contains_u64(&buf.pending, ev.a) || vec_contains_u64(&buf.pending, ev.b) {
                return;
            }
            let ta = match self.tags.get_copy(ev.a) {
                Some(t) => t,
                None => {
                    return;
                },
            };
            let tb = match self.tags.get_copy(ev.b) {
                Some(t) => t,
                None => {
                    return;
                },
            };
            match crate::tags::classify(ta, tb) {
                PairKind::PlayerEnemy => {
                    match self.scorch {
                        None => {},
                        Some((pid, s)) => {
                            let enemy_id = if matches!(ta, CategoryTag::Enemy) {
                                ev.a
                            } else {
                                ev.b
                            };
                            proof {
                                assert(self@.enemies.contains_key(enemy_id));
                            }
                            let mut enemy = self.enemies.get_copy(enemy_id).unwrap();
                            let mut s2 = s;
                            enemy.add_dpf(-DPF_CONTACT_RATE);
                            s2.add_dpf(-DPF_CONTACT_RATE);
                            self.enemies.set(enemy_id, enemy);
                            self.scorch = Some((pid, s2));
                        },
                    }
                },
                _ => {},
            }
        }
    }
}

} // verus!
