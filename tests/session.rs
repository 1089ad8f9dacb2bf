use spawn_session::assets::{asset_path, AssetRegistry, Handle};
use spawn_session::factory::{
    collider_for, physics_body, transform_for, BodyKind, SpawnKind, Vec2, SPRITE_Z,
};
use spawn_session::layers::{groups_for, kinds_interact, InteractionGroups};
use spawn_session::session::{Phase, SessionController};
use spawn_session::spawner::{spawn, SpawnError};
use spawn_session::world::{Component, ComponentKind, Entity, StoreError, World};

fn loaded_assets() -> AssetRegistry {
    let mut assets = AssetRegistry::new();
    assets.mark_loaded(SpawnKind::Player, Handle { id: 10 });
    assets.mark_loaded(SpawnKind::FollowEnemy, Handle { id: 11 });
    assets
}

#[test]
fn factory_extents_positive_and_position_free() {
    let owner = Entity { id: 3 };
    for kind in [SpawnKind::Player, SpawnKind::FollowEnemy] {
        let (body_a, collider_a) = physics_body(kind, Vec2 { x: 0, y: 0 }, owner);
        let (body_b, collider_b) = physics_body(kind, Vec2 { x: -7_000, y: 123_456 }, owner);
        assert!(collider_a.half_width > 0);
        assert!(collider_a.half_height > 0);
        assert_eq!(collider_a, collider_b);
        assert_eq!(body_a.body_kind, BodyKind::Dynamic);
        assert_eq!(body_a.linear_damping, body_b.linear_damping);
        assert_eq!(body_a.angular_damping, body_b.angular_damping);
        assert_eq!(body_b.position, Vec2 { x: -7_000, y: 123_456 });
        assert_eq!(body_b.user_tag, owner);
    }
}

#[test]
fn player_collider_exact_extents() {
    // (549 - 350) * 0.33 / 2 and (549 - 80) * 0.33 / 2, in thousandths
    let c = collider_for(SpawnKind::Player);
    assert_eq!(c.half_width, 32_835);
    assert_eq!(c.half_height, 77_385);
    assert_eq!(c.groups, InteractionGroups { memberships: 0x00100, filter: 0x00001 });
}

#[test]
fn follower_collider_exact_extents() {
    // 12 * 2.5 / 2 and 20 * 2.5 / 2, in thousandths
    let c = collider_for(SpawnKind::FollowEnemy);
    assert_eq!(c.half_width, 15_000);
    assert_eq!(c.half_height, 25_000);
    assert_eq!(c.groups, InteractionGroups { memberships: 0x00001, filter: 0x00110 });
}

#[test]
fn damping_values() {
    let (p, _) = physics_body(SpawnKind::Player, Vec2 { x: 0, y: 0 }, Entity { id: 0 });
    assert_eq!((p.linear_damping, p.angular_damping), (500, 5_000));
    let (f, _) = physics_body(SpawnKind::FollowEnemy, Vec2 { x: 0, y: 0 }, Entity { id: 0 });
    assert_eq!((f.linear_damping, f.angular_damping), (1_000, 6_000));
}

#[test]
fn transforms_scale_by_kind() {
    let t = transform_for(SpawnKind::Player, Vec2 { x: 1, y: 2 });
    assert_eq!(t.scale, Vec2 { x: 330, y: 330 });
    assert_eq!(t.translation, Vec2 { x: 1, y: 2 });
    assert_eq!(t.z, SPRITE_Z);
    let t = transform_for(SpawnKind::FollowEnemy, Vec2 { x: 0, y: 0 });
    assert_eq!(t.scale, Vec2 { x: 2_500, y: 2_500 });
}

#[test]
fn player_meets_follower_not_player() {
    assert!(kinds_interact(SpawnKind::Player, SpawnKind::FollowEnemy));
    assert!(kinds_interact(SpawnKind::FollowEnemy, SpawnKind::Player));
    assert!(!kinds_interact(SpawnKind::Player, SpawnKind::Player));
    assert!(!kinds_interact(SpawnKind::FollowEnemy, SpawnKind::FollowEnemy));
}

#[test]
fn groups_need_both_directions() {
    let a = InteractionGroups::new(0b01, 0b10);
    let b = InteractionGroups::new(0b10, 0b00);
    // a can hit b, but b accepts nothing
    assert!(!a.test(b));
    assert!(!b.test(a));
    let c = InteractionGroups::new(0b10, 0b01);
    assert!(a.test(c));
    assert!(c.test(a));
    assert_eq!(groups_for(SpawnKind::Player), InteractionGroups::new(0x00100, 0x00001));
}

#[test]
fn asset_paths() {
    assert_eq!(asset_path(SpawnKind::Player), "sprites/pirate_ship.png");
    assert_eq!(asset_path(SpawnKind::FollowEnemy), "sprites/green_fighter.png");
}

#[test]
fn registry_ready_only_when_all_loaded() {
    let mut assets = AssetRegistry::new();
    assert!(!assets.is_ready());
    assert_eq!(assets.get(SpawnKind::Player), Err(SpawnError::AssetNotReady));
    assets.mark_loaded(SpawnKind::Player, Handle { id: 4 });
    assert!(!assets.is_ready());
    assert_eq!(assets.get(SpawnKind::Player), Ok(Handle { id: 4 }));
    assets.mark_loaded(SpawnKind::FollowEnemy, Handle { id: 5 });
    assert!(assets.is_ready());
    assert_eq!(assets.get(SpawnKind::FollowEnemy), Ok(Handle { id: 5 }));
}

#[test]
fn spawn_attaches_everything() {
    let assets = loaded_assets();
    let mut world = World::new();
    let e = spawn(&mut world, &assets, SpawnKind::FollowEnemy, Vec2 { x: 300_000, y: 300_000 }).unwrap();
    assert_eq!(e, Entity { id: 0 });
    let c = world.components(e).unwrap();
    assert_eq!(c.sprite, Some(Handle { id: 11 }));
    assert_eq!(c.transform.unwrap().translation, Vec2 { x: 300_000, y: 300_000 });
    let body = c.body.unwrap();
    assert_eq!(body.user_tag, e);
    assert_eq!(body.position, Vec2 { x: 300_000, y: 300_000 });
    assert_eq!(c.collider.unwrap().half_width, 15_000);
    assert_eq!(world.body_owner(0), Some(e));
}

#[test]
fn spawn_rolls_back_on_collider_refusal() {
    let assets = loaded_assets();
    let mut world = World::refusing(ComponentKind::Collider);
    let r = spawn(&mut world, &assets, SpawnKind::Player, Vec2 { x: 0, y: 0 });
    assert_eq!(r, Err(SpawnError::StoreAttachFailure));
    assert!(!world.contains(Entity { id: 0 }));
    assert_eq!(world.components(Entity { id: 0 }), None);
    assert_eq!(world.body_owner(0), None);
}

#[test]
fn spawn_without_sprite_is_asset_not_ready() {
    let mut assets = AssetRegistry::new();
    assets.mark_loaded(SpawnKind::Player, Handle { id: 1 });
    let mut world = World::new();
    let r = spawn(&mut world, &assets, SpawnKind::FollowEnemy, Vec2 { x: 0, y: 0 });
    assert_eq!(r, Err(SpawnError::AssetNotReady));
    assert!(!world.contains(Entity { id: 0 }));
    let e = spawn(&mut world, &assets, SpawnKind::Player, Vec2 { x: 0, y: 0 }).unwrap();
    assert_eq!(e, Entity { id: 1 });
}

#[test]
fn attach_errors() {
    let mut world = World::refusing(ComponentKind::Sprite);
    let ghost = Entity { id: 9 };
    assert_eq!(world.attach(ghost, Component::Sprite(Handle { id: 1 })), Err(StoreError::NoSuchEntity));
    let e = world.allocate();
    assert_eq!(world.attach(e, Component::Sprite(Handle { id: 1 })), Err(StoreError::Rejected));
    let (body, _) = physics_body(SpawnKind::Player, Vec2 { x: 0, y: 0 }, ghost);
    assert_eq!(world.attach(e, Component::Body(body)), Err(StoreError::TagMismatch));
    assert_eq!(world.components(e).unwrap().body, None);
    assert_eq!(world.body_owner(e.id), None);
    let (body, _) = physics_body(SpawnKind::Player, Vec2 { x: 0, y: 0 }, e);
    assert_eq!(world.attach(e, Component::Body(body)), Ok(()));
    assert_eq!(world.body_owner(e.id), Some(e));
    world.rollback(e);
    assert!(!world.contains(e));
}

#[test]
fn end_to_end_session() {
    let mut assets = AssetRegistry::new();
    let mut world = World::new();
    let mut session = SessionController::new();
    assert_eq!(session.phase(), Phase::AssetLoading);
    assert_eq!(session.step(&mut world, &assets), Ok(Phase::AssetLoading));
    assets.mark_loaded(SpawnKind::Player, Handle { id: 1 });
    assets.mark_loaded(SpawnKind::FollowEnemy, Handle { id: 2 });
    assert_eq!(session.step(&mut world, &assets), Ok(Phase::InitialSpawn));
    assert!(!world.contains(Entity { id: 0 }));
    assert_eq!(session.step(&mut world, &assets), Ok(Phase::Playing));
    assert!(world.is_view_ready());
    let e1 = session.player().unwrap();
    let e2 = session.follower().unwrap();
    let player = world.components(e1).unwrap().collider.unwrap();
    assert_eq!((player.half_width, player.half_height), (32_835, 77_385));
    let follower = world.components(e2).unwrap();
    let collider = follower.collider.unwrap();
    assert_eq!((collider.half_width, collider.half_height), (15_000, 25_000));
    assert_eq!(follower.body.unwrap().position, Vec2 { x: 300_000, y: 300_000 });
    assert_eq!(session.step(&mut world, &assets), Ok(Phase::Playing));
}

#[test]
fn observed_phases_in_order() {
    let mut assets = AssetRegistry::new();
    let mut world = World::new();
    let mut session = SessionController::new();
    let mut seen = vec![session.phase()];
    for tick in 0..6 {
        if tick == 2 {
            assets = loaded_assets();
        }
        session.step(&mut world, &assets).unwrap();
        if *seen.last().unwrap() != session.phase() {
            seen.push(session.phase());
        }
    }
    assert_eq!(seen, vec![Phase::AssetLoading, Phase::InitialSpawn, Phase::Playing]);
}

#[test]
fn load_signal_fires_once() {
    let assets = loaded_assets();
    let mut world = World::new();
    let mut session = SessionController::new();
    assert!(session.poll_assets(&assets));
    assert_eq!(session.run_initial_spawn(&mut world, &assets), Ok((Entity { id: 0 }, Entity { id: 1 })));
    assert!(!session.poll_assets(&assets));
    assert_eq!(session.phase(), Phase::Playing);
    assert_eq!(session.run_initial_spawn(&mut world, &assets), Err(SpawnError::PhaseViolation));
    assert!(!world.contains(Entity { id: 2 }));
    assert_eq!(session.player(), Some(Entity { id: 0 }));
}

#[test]
fn spawn_phase_outside_its_phase() {
    let assets = loaded_assets();
    let mut world = World::new();
    let mut session = SessionController::new();
    assert_eq!(session.run_initial_spawn(&mut world, &assets), Err(SpawnError::PhaseViolation));
    assert_eq!(session.phase(), Phase::AssetLoading);
    assert!(!world.is_view_ready());
}

#[test]
fn failed_player_spawn_keeps_phase() {
    let assets = loaded_assets();
    let mut world = World::refusing(ComponentKind::Body);
    let mut session = SessionController::new();
    assert_eq!(session.step(&mut world, &assets), Ok(Phase::InitialSpawn));
    assert_eq!(session.step(&mut world, &assets), Err(SpawnError::StoreAttachFailure));
    assert_eq!(session.phase(), Phase::InitialSpawn);
    assert_eq!(session.player(), None);
    assert!(!world.contains(Entity { id: 0 }));
}

#[test]
fn missing_follower_sprite_leaves_player_playing() {
    let loaded = loaded_assets();
    let mut only_player = AssetRegistry::new();
    only_player.mark_loaded(SpawnKind::Player, Handle { id: 1 });
    let mut world = World::new();
    let mut session = SessionController::new();
    assert!(session.poll_assets(&loaded));
    assert_eq!(session.run_initial_spawn(&mut world, &only_player), Err(SpawnError::AssetNotReady));
    assert_eq!(session.phase(), Phase::Playing);
    assert_eq!(session.player(), Some(Entity { id: 0 }));
    assert_eq!(session.follower(), None);
    assert!(world.contains(Entity { id: 0 }));
    assert!(!world.contains(Entity { id: 1 }));
}
