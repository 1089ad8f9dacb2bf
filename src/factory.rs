//! The physics body factory: from a kind of body and a position, the rigid
//! body, collider and transform that a spawn attaches.

use vstd::prelude::*;

use crate::layers::{groups_for, kind_groups, InteractionGroups};
use crate::world::Entity;

verus! {

/// The kinds of body that the session spawns.
#[derive(Clone, Copy, Debug, PartialEq, Eq, Structural)]
pub enum SpawnKind {
    Player,
    FollowEnemy,
}

/// How the physics engine moves a body.
#[derive(Clone, Copy, Debug, PartialEq, Eq, Structural)]
pub enum BodyKind {
    Dynamic,
    Static,
    Kinematic,
}

/// A point or a per-axis factor, in thousandths.
#[derive(Clone, Copy, Debug, PartialEq, Eq, Structural)]
pub struct Vec2 {
    pub x: i64,
    pub y: i64,
}

/// Placement of a sprite: position, per-axis scale, and draw order.
#[derive(Clone, Copy, Debug, PartialEq, Eq, Structural)]
pub struct Transform {
    pub translation: Vec2,
    pub scale: Vec2,
    pub z: i64,
}

/// Rigid-body parameters. `user_tag` names the entity that owns the body, so
/// that contact reports can be traced back to it; it is never an owner.
#[derive(Clone, Copy, Debug, PartialEq, Eq, Structural)]
pub struct RigidBodySpec {
    pub body_kind: BodyKind,
    pub linear_damping: u32,
    pub angular_damping: u32,
    pub position: Vec2,
    pub user_tag: Entity,
}

/// A rectangular collider with its collision groups.
#[derive(Clone, Copy, Debug, PartialEq, Eq, Structural)]
pub struct ColliderSpec {
    pub half_width: u64,
    pub half_height: u64,
    pub groups: InteractionGroups,
}

/// Scale of the player sprite (0.33).
pub const PLAYER_SCALE: u64 = 330;

/// Side of the player sprite's square art, in pixels.
pub const PLAYER_SPRITE_DIM: u64 = 549;

/// Pixels of the player art left out of the hitbox horizontally.
pub const PLAYER_MARGIN_X: u64 = 350;

/// Pixels of the player art left out of the hitbox vertically.
pub const PLAYER_MARGIN_Y: u64 = 80;

/// Scale of the follower sprite (2.5).
pub const FOLLOWER_SCALE: u64 = 2500;

/// Width of the follower art, in pixels.
pub const FOLLOWER_BASE_WIDTH: u64 = 12;

/// Height of the follower art, in pixels.
pub const FOLLOWER_BASE_HEIGHT: u64 = 20;

/// Damping of the player's motion (0.5).
pub const PLAYER_LINEAR_DAMPING: u32 = 500;

/// Damping of the player's spin (5.0).
pub const PLAYER_ANGULAR_DAMPING: u32 = 5000;

/// Damping of the follower's motion (1.0).
pub const FOLLOWER_LINEAR_DAMPING: u32 = 1000;

/// Damping of the follower's spin (6.0).
pub const FOLLOWER_ANGULAR_DAMPING: u32 = 6000;

/// Draw order of every spawned sprite (1.0).
pub const SPRITE_Z: i64 = 1000;

/// Sprite scale of a kind, in thousandths.
pub open spec fn kind_scale(kind: SpawnKind) -> u64 {
    match kind {
        SpawnKind::Player => PLAYER_SCALE,
        SpawnKind::FollowEnemy => FOLLOWER_SCALE,
    }
}

/// Full hitbox width of a kind, in thousandths: the usable art, scaled.
pub open spec fn hitbox_width(kind: SpawnKind) -> int {
    match kind {
        SpawnKind::Player => (PLAYER_SPRITE_DIM - PLAYER_MARGIN_X) * PLAYER_SCALE,
        SpawnKind::FollowEnemy => FOLLOWER_BASE_WIDTH * FOLLOWER_SCALE,
    }
}

/// Full hitbox height of a kind, in thousandths.
pub open spec fn hitbox_height(kind: SpawnKind) -> int {
    match kind {
        SpawnKind::Player => (PLAYER_SPRITE_DIM - PLAYER_MARGIN_Y) * PLAYER_SCALE,
        SpawnKind::FollowEnemy => FOLLOWER_BASE_HEIGHT * FOLLOWER_SCALE,
    }
}

/// The collider of a kind: half the hitbox on each axis, with the kind's groups.
pub open spec fn kind_collider(kind: SpawnKind) -> ColliderSpec {
    ColliderSpec {
        half_width: (hitbox_width(kind) / 2) as u64,
        half_height: (hitbox_height(kind) / 2) as u64,
        groups: kind_groups(kind),
    }
}

/// The dynamic rigid body of a kind at `position`, tagged with `owner`.
pub open spec fn kind_rigid_body(kind: SpawnKind, position: Vec2, owner: Entity) -> RigidBodySpec {
    match kind {
        SpawnKind::Player => RigidBodySpec {
            body_kind: BodyKind::Dynamic,
            linear_damping: PLAYER_LINEAR_DAMPING,
            angular_damping: PLAYER_ANGULAR_DAMPING,
            position,
            user_tag: owner,
        },
        SpawnKind::FollowEnemy => RigidBodySpec {
            body_kind: BodyKind::Dynamic,
            linear_damping: FOLLOWER_LINEAR_DAMPING,
            angular_damping: FOLLOWER_ANGULAR_DAMPING,
            position,
            user_tag: owner,
        },
    }
}

/// The sprite placement of a kind at `position`, at the kind's scale.
pub open spec fn kind_transform(kind: SpawnKind, position: Vec2) -> Transform {
    Transform {
        translation: position,
        scale: Vec2 { x: kind_scale(kind) as i64, y: kind_scale(kind) as i64 },
        z: SPRITE_Z,
    }
}

/// The collider of a kind; it does not depend on where the body stands.
pub fn collider_for(kind: SpawnKind) -> (r: ColliderSpec)
    ensures
        r == kind_collider(kind),
{
    match kind {
        SpawnKind::Player => ColliderSpec {
            half_width: (PLAYER_SPRITE_DIM - PLAYER_MARGIN_X) * PLAYER_SCALE / 2,
            half_height: (PLAYER_SPRITE_DIM - PLAYER_MARGIN_Y) * PLAYER_SCALE / 2,
            groups: groups_for(kind),
        },
        SpawnKind::FollowEnemy => ColliderSpec {
            half_width: FOLLOWER_BASE_WIDTH * FOLLOWER_SCALE / 2,
            half_height: FOLLOWER_BASE_HEIGHT * FOLLOWER_SCALE / 2,
            groups: groups_for(kind),
        },
    }
}

/// The rigid body of a kind at `position`, tagged with its owner.
pub fn rigid_body_for(kind: SpawnKind, position: Vec2, owner: Entity) -> (r: RigidBodySpec)
    ensures
        r == kind_rigid_body(kind, position, owner),
{
    let (linear_damping, angular_damping) = match kind {
        SpawnKind::Player => (PLAYER_LINEAR_DAMPING, PLAYER_ANGULAR_DAMPING),
        SpawnKind::FollowEnemy => (FOLLOWER_LINEAR_DAMPING, FOLLOWER_ANGULAR_DAMPING),
    };
    RigidBodySpec {
        body_kind: BodyKind::Dynamic,
        linear_damping,
        angular_damping,
        position,
        user_tag: owner,
    }
}

/// The sprite transform of a kind at `position`.
pub fn transform_for(kind: SpawnKind, position: Vec2) -> (r: Transform)
    ensures
        r == kind_transform(kind, position),
{
    let scale: i64 = match kind {
        SpawnKind::Player => PLAYER_SCALE as i64,
        SpawnKind::FollowEnemy => FOLLOWER_SCALE as i64,
    };
    Transform { translation: position, scale: Vec2 { x: scale, y: scale }, z: SPRITE_Z }
}

/// Rigid body and collider of a kind at `position`, owned by `owner`.
pub fn physics_body(kind: SpawnKind, position: Vec2, owner: Entity) -> (r: (
    RigidBodySpec,
    ColliderSpec,
))
    ensures
        r.0 == kind_rigid_body(kind, position, owner),
        r.1 == kind_collider(kind),
        r.1.half_width > 0,
        r.1.half_height > 0,
{
    (rigid_body_for(kind, position, owner), collider_for(kind))
}

/// Every body the factory makes is dynamic, with a collider of positive
/// extent and non-negative damping, and its collider is the same wherever
/// the body is placed.
pub proof fn lemma_factory_well_formed(kind: SpawnKind, p: Vec2, q: Vec2, owner: Entity)
    ensures
        kind_collider(kind).half_width > 0,
        kind_collider(kind).half_height > 0,
        kind_rigid_body(kind, p, owner).linear_damping >= 0,
        kind_rigid_body(kind, p, owner).angular_damping >= 0,
        kind_rigid_body(kind, p, owner).body_kind == BodyKind::Dynamic,
        kind_rigid_body(kind, p, owner).position == p,
        kind_rigid_body(kind, p, owner).user_tag == owner,
        kind_rigid_body(kind, p, owner) == (RigidBodySpec { position: p, ..kind_rigid_body(kind, q, owner) }),
{
}

} // verus!
