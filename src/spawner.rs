//! The entity spawner: creates an entity with its full set of components,
//! or leaves the store as it was.

use vstd::prelude::*;

use crate::assets::{AssetRegistry, Handle};
use crate::factory::{
    collider_for, kind_collider, kind_rigid_body, kind_transform, rigid_body_for, transform_for,
    SpawnKind, Vec2,
};
use crate::world::{Component, ComponentKind, Components, Entity, World};

verus! {

/// Failures of spawning and of the session that drives it.
#[derive(Clone, Copy, Debug, PartialEq, Eq, Structural)]
pub enum SpawnError {
    /// The sprite of the kind has not loaded.
    AssetNotReady,
    /// The store refused one of the components.
    StoreAttachFailure,
    /// A phase's spawn work was asked for outside that phase.
    PhaseViolation,
}

/// Everything a spawn of `kind` at `position` attaches to `e`.
pub open spec fn spawned_components(
    kind: SpawnKind,
    position: Vec2,
    e: Entity,
    sprite: Handle,
) -> Components {
    Components {
        transform: Some(kind_transform(kind, position)),
        sprite: Some(sprite),
        body: Some(kind_rigid_body(kind, position, e)),
        collider: Some(kind_collider(kind)),
    }
}

/// Attaches `c` to the entity `e` that `spawn` is building; on failure `e`
/// is rolled back, so the store is as it was before `e` was allocated.
fn attach_or_rollback(
    world: &mut World,
    e: Entity,
    c: Component,
    Ghost(before): Ghost<Map<u64, Components>>,
) -> (r: Result<(), SpawnError>)
    requires
        old(world).wf(),
        !before.contains_key(e.id),
        old(world).entities().contains_key(e.id),
        old(world).entities() == before.insert(e.id, old(world).entities()[e.id]),
        !c.misdirected(e),
    ensures
        final(world).wf(),
        r is Ok <==> old(world).refuses() != Some(c.kind()),
        r is Ok ==> final(world).entities() == before.insert(e.id, old(world).entities()[e.id].with(c)),
        r is Err ==> r == Err::<(), SpawnError>(SpawnError::StoreAttachFailure) && final(world).entities() == before,
        final(world).next_id() == old(world).next_id(),
        final(world).refuses() == old(world).refuses(),
        final(world).view_ready() == old(world).view_ready(),
{
    match world.attach(e, c) {
        Ok(()) => {
            assert(world.entities() =~= before.insert(e.id, old(world).entities()[e.id].with(c)));
            Ok(())
        },
        Err(_) => {
            world.rollback(e);
            assert(world.entities() =~= before);
            Err(SpawnError::StoreAttachFailure)
        },
    }
}

/// Creates an entity of `kind` at `position` with its transform, sprite,
/// rigid body and collider. Either every component is attached, or the
/// entity is rolled back and the store's contents are as before.
pub fn spawn(world: &mut World, assets: &AssetRegistry, kind: SpawnKind, position: Vec2) -> (r:
    Result<Entity, SpawnError>)
    requires
        old(world).wf(),
        old(world).next_id() < u64::MAX,
    ensures
        final(world).wf(),
        final(world).next_id() == old(world).next_id() + 1,
        final(world).refuses() == old(world).refuses(),
        final(world).view_ready() == old(world).view_ready(),
        r is Ok <==> assets.handle_of(kind) is Some && old(world).refuses() is None,
        r is Ok ==> r == Ok::<Entity, SpawnError>(Entity { id: old(world).next_id() }),
        r matches Ok(e) ==> !old(world).entities().contains_key(e.id),
        r matches Ok(e) ==> final(world).entities() == old(world).entities().insert(
            e.id,
            spawned_components(kind, position, e, assets.handle_of(kind).unwrap()),
        ),
        r matches Err(err) ==> final(world).entities() == old(world).entities() && err == (if assets.handle_of(kind) is None {
            SpawnError::AssetNotReady
        } else {
            SpawnError::StoreAttachFailure
        }),
{
    let ghost before = world.entities();
    let e = world.allocate();
    let sprite = match assets.get(kind) {
        Ok(h) => h,
        Err(err) => {
            world.rollback(e);
            assert(world.entities() =~= before);
            return Err(err);
        },
    };
    let (body, collider) = (rigid_body_for(kind, position, e), collider_for(kind));
    if attach_or_rollback(world, e, Component::Transform(transform_for(kind, position)), Ghost(before)).is_err() {
        return Err(SpawnError::StoreAttachFailure);
    }
    if attach_or_rollback(world, e, Component::Sprite(sprite), Ghost(before)).is_err() {
        return Err(SpawnError::StoreAttachFailure);
    }
    if attach_or_rollback(world, e, Component::Body(body), Ghost(before)).is_err() {
        return Err(SpawnError::StoreAttachFailure);
    }
    if attach_or_rollback(world, e, Component::Collider(collider), Ghost(before)).is_err() {
        return Err(SpawnError::StoreAttachFailure);
    }
    assert(world.refuses() is None) by {
        if let Some(k) = world.refuses() {
            match k {
                ComponentKind::Transform => {},
                ComponentKind::Sprite => {},
                ComponentKind::Body => {},
                ComponentKind::Collider => {},
            }
        }
    }
    assert(world.entities()[e.id] == spawned_components(kind, position, e, sprite));
    Ok(e)
}

} // verus!
