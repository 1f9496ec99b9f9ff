//! Category tags and the collision dispatch table.
//!
//! Every simulated body that takes part in combat resolution carries
//! exactly one category tag, assigned at spawn.  A contact event arrives
//! as an unordered pair of entities; the resolver orders the pair by the
//! tags' membership bits (lower bits first, the physics collision-group
//! convention) and looks the ordered category pair up in a closed handler
//! table.  The lookup is proved independent of event-delivery order.

use vstd::prelude::*;

verus! {

/// The semantic role of a simulated body, distinct from its physical
/// collision-filter groups.
#[derive(Clone, Copy, Debug, PartialEq, Eq, Structural)]
pub enum CategoryTag {
    Player,
    Ember,
    Block,
    Enemy,
    EnemyProjectile,
    /// The trigger volume that moves with the player and activates
    /// enemies; it has no state of its own.
    DetectionSensor,
}

/// Which handler a category pair maps to.
#[derive(Clone, Copy, Debug, PartialEq, Eq, Structural)]
pub enum PairKind {
    /// Player absorbs the ember and regains flame.
    PlayerEmber,
    /// Player contact ignites a burnable, unlit block.
    PlayerBlock,
    /// Mutual contact damage, knockback and stun.
    PlayerEnemy,
    /// The projectile hits the player and despawns.
    PlayerProjectile,
    /// The ember ignites a burnable, unlit block.
    EmberBlock,
    /// The ember damages the enemy and is consumed.
    EmberEnemy,
    /// Explicitly a no-op placeholder.
    EmberProjectile,
    /// Reserved; no effect.
    BlockEnemy,
    /// Blocks stop projectiles: the projectile despawns.
    BlockProjectile,
    /// The enemy enters the player's detection radius and activates.
    SensorEnemy,
    /// No handler exists for this category pair.
    Unrecognized,
}

/// The collision-group membership bit of a category.  The detection
/// sensor rides in the player's group.
pub open spec fn tag_bits_spec(t: CategoryTag) -> u64 {
    match t {
        CategoryTag::Player => 1,
        CategoryTag::DetectionSensor => 1,
        CategoryTag::Ember => 2,
        CategoryTag::Block => 4,
        CategoryTag::Enemy => 8,
        CategoryTag::EnemyProjectile => 16,
    }
}

/// The handler for an unordered category pair.  Defined symmetrically:
/// both delivery orders name the same handler.
pub open spec fn pair_kind_spec(a: CategoryTag, b: CategoryTag) -> PairKind {
    match (a, b) {
        (CategoryTag::Player, CategoryTag::Ember) => PairKind::PlayerEmber,
        (CategoryTag::Ember, CategoryTag::Player) => PairKind::PlayerEmber,
        (CategoryTag::Player, CategoryTag::Block) => PairKind::PlayerBlock,
        (CategoryTag::Block, CategoryTag::Player) => PairKind::PlayerBlock,
        (CategoryTag::Player, CategoryTag::Enemy) => PairKind::PlayerEnemy,
        (CategoryTag::Enemy, CategoryTag::Player) => PairKind::PlayerEnemy,
        (CategoryTag::Player, CategoryTag::EnemyProjectile) => PairKind::PlayerProjectile,
        (CategoryTag::EnemyProjectile, CategoryTag::Player) => PairKind::PlayerProjectile,
        (CategoryTag::Ember, CategoryTag::Block) => PairKind::EmberBlock,
        (CategoryTag::Block, CategoryTag::Ember) => PairKind::EmberBlock,
        (CategoryTag::Ember, CategoryTag::Enemy) => PairKind::EmberEnemy,
        (CategoryTag::Enemy, CategoryTag::Ember) => PairKind::EmberEnemy,
        (CategoryTag::Ember, CategoryTag::EnemyProjectile) => PairKind::EmberProjectile,
        (CategoryTag::EnemyProjectile, CategoryTag::Ember) => PairKind::EmberProjectile,
        (CategoryTag::Block, CategoryTag::Enemy) => PairKind::BlockEnemy,
        (CategoryTag::Enemy, CategoryTag::Block) => PairKind::BlockEnemy,
        (CategoryTag::Block, CategoryTag::EnemyProjectile) => PairKind::BlockProjectile,
        (CategoryTag::EnemyProjectile, CategoryTag::Block) => PairKind::BlockProjectile,
        (CategoryTag::DetectionSensor, CategoryTag::Enemy) => PairKind::SensorEnemy,
        (CategoryTag::Enemy, CategoryTag::DetectionSensor) => PairKind::SensorEnemy,
        _ => PairKind::Unrecognized,
    }
}

/// The membership bit of a category tag.
pub fn tag_bits(t: CategoryTag) -> (r: u64)
    ensures
        r == tag_bits_spec(t),
{
    match t {
        CategoryTag::Player => 1,
        CategoryTag::DetectionSensor => 1,
        CategoryTag::Ember => 2,
        CategoryTag::Block => 4,
        CategoryTag::Enemy => 8,
        CategoryTag::EnemyProjectile => 16,
    }
}

/// Look an unordered category pair up in the handler table.
pub fn classify(a: CategoryTag, b: CategoryTag) -> (k: PairKind)
    ensures
        k == pair_kind_spec(a, b),
{
    match (a, b) {
        (CategoryTag::Player, CategoryTag::Ember) => PairKind::PlayerEmber,
        (CategoryTag::Ember, CategoryTag::Player) => PairKind::PlayerEmber,
        (CategoryTag::Player, CategoryTag::Block) => PairKind::PlayerBlock,
        (CategoryTag::Block, CategoryTag::Player) => PairKind::PlayerBlock,
        (CategoryTag::Player, CategoryTag::Enemy) => PairKind::PlayerEnemy,
        (CategoryTag::Enemy, CategoryTag::Player) => PairKind::PlayerEnemy,
        (CategoryTag::Player, CategoryTag::EnemyProjectile) => PairKind::PlayerProjectile,
        (CategoryTag::EnemyProjectile, CategoryTag::Player) => PairKind::PlayerProjectile,
        (CategoryTag::Ember, CategoryTag::Block) => PairKind::EmberBlock,
        (CategoryTag::Block, CategoryTag::Ember) => PairKind::EmberBlock,
        (CategoryTag::Ember, CategoryTag::Enemy) => PairKind::EmberEnemy,
        (CategoryTag::Enemy, CategoryTag::Ember) => PairKind::EmberEnemy,
        (CategoryTag::Ember, CategoryTag::EnemyProjectile) => PairKind::EmberProjectile,
        (CategoryTag::EnemyProjectile, CategoryTag::Ember) => PairKind::EmberProjectile,
        (CategoryTag::Block, CategoryTag::Enemy) => PairKind::BlockEnemy,
        (CategoryTag::Enemy, CategoryTag::Block) => PairKind::BlockEnemy,
        (CategoryTag::Block, CategoryTag::EnemyProjectile) => PairKind::BlockProjectile,
        (CategoryTag::EnemyProjectile, CategoryTag::Block) => PairKind::BlockProjectile,
        (CategoryTag::DetectionSensor, CategoryTag::Enemy) => PairKind::SensorEnemy,
        (CategoryTag::Enemy, CategoryTag::DetectionSensor) => PairKind::SensorEnemy,
        _ => PairKind::Unrecognized,
    }
}

/// Dispatch does not depend on event-delivery order: both orders of a
/// category pair name the same handler, so the resolver's bit-ordering
/// of the pair cannot change which effect is applied.
pub proof fn lemma_classification_order_independent(a: CategoryTag, b: CategoryTag)
    ensures
        pair_kind_spec(a, b) == pair_kind_spec(b, a),
{
}

} // verus!
