//! The session lifecycle controller: a phase state machine that waits for
//! the sprites, spawns the player, then the follower.

use vstd::prelude::*;

use crate::assets::AssetRegistry;
use crate::factory::{SpawnKind, Vec2};
use crate::spawner::{spawn, spawned_components, SpawnError};
use crate::world::{ComponentKind, Components, Entity, World};

verus! {

/// Stages of a session, in the order they are entered.
#[derive(Clone, Copy, Debug, PartialEq, Eq, Structural)]
pub enum Phase {
    AssetLoading,
    InitialSpawn,
    Playing,
}

/// Position of a phase in the session's order.
pub open spec fn phase_rank(p: Phase) -> int {
    match p {
        Phase::AssetLoading => 0,
        Phase::InitialSpawn => 1,
        Phase::Playing => 2,
    }
}

/// One observation of the phase to the next: it stays, or moves on to the
/// phase right after it.
pub open spec fn phase_step(a: Phase, b: Phase) -> bool {
    phase_rank(b) == phase_rank(a) || phase_rank(b) == phase_rank(a) + 1
}

/// Where the player starts, in thousandths.
pub const PLAYER_START_X: i64 = 0;

/// See `PLAYER_START_X`.
pub const PLAYER_START_Y: i64 = 0;

/// Where the follower starts (300, 300), in thousandths.
pub const FOLLOWER_START_X: i64 = 300_000;

/// See `FOLLOWER_START_X`.
pub const FOLLOWER_START_Y: i64 = 300_000;

pub open spec fn player_start() -> Vec2 {
    Vec2 { x: PLAYER_START_X, y: PLAYER_START_Y }
}

pub open spec fn follower_start() -> Vec2 {
    Vec2 { x: FOLLOWER_START_X, y: FOLLOWER_START_Y }
}

/// What the work of `InitialSpawn` leaves, from a store holding `entities`,
/// whose next identifier is `next_id` and which refuses components of kind
/// `refuses`: the view is set up; the player is
/// spawned at `next_id`, or nothing is stored and the phase stays; then the
/// session is in `Playing` and the follower is spawned at `next_id + 1`, or
/// only the player was added.
pub open spec fn initial_spawn_outcome(
    entities: Map<u64, Components>,
    next_id: u64,
    refuses: Option<ComponentKind>,
    assets: AssetRegistry,
    after: SessionState,
    entities_after: Map<u64, Components>,
    next_id_after: u64,
    view_ready_after: bool,
    r: Result<(Entity, Entity), SpawnError>,
) -> bool {
    let player = Entity { id: next_id };
    let follower = Entity { id: (next_id + 1) as u64 };
    let player_ok = assets.handle_of(SpawnKind::Player) is Some && refuses is None;
    let follower_ok = assets.handle_of(SpawnKind::FollowEnemy) is Some;
    let with_player = entities.insert(
        player.id,
        spawned_components(SpawnKind::Player, player_start(), player,
            assets.handle_of(SpawnKind::Player).unwrap()),
    );
    &&& view_ready_after
    &&& next_id_after == next_id + if player_ok { 2int } else { 1int }
    &&& !player_ok ==> {
        &&& r == Err::<(Entity, Entity), SpawnError>(
            if assets.handle_of(SpawnKind::Player) is None {
                SpawnError::AssetNotReady
            } else {
                SpawnError::StoreAttachFailure
            },
        )
        &&& after.phase == Phase::InitialSpawn
        &&& after.player is None
        &&& after.follower is None
        &&& entities_after == entities
    }
    &&& player_ok ==> {
        &&& after.phase == Phase::Playing
        &&& after.player == Some(player)
        &&& !entities.contains_key(player.id)
        &&& follower_ok ==> {
            &&& r == Ok::<(Entity, Entity), SpawnError>((player, follower))
            &&& after.follower == Some(follower)
            &&& !with_player.contains_key(follower.id)
            &&& entities_after == with_player.insert(
                follower.id,
                spawned_components(SpawnKind::FollowEnemy, follower_start(),
                    follower, assets.handle_of(SpawnKind::FollowEnemy).unwrap()),
            )
        }
        &&& !follower_ok ==> {
            &&& r == Err::<(Entity, Entity), SpawnError>(SpawnError::AssetNotReady)
            &&& after.follower is None
            &&& entities_after == with_player
        }
    }
}

/// What the controller knows of its session.
pub struct SessionState {
    pub phase: Phase,
    pub player: Option<Entity>,
    pub follower: Option<Entity>,
}

impl SessionState {
    /// Nothing is spawned before `Playing`, the player is there from
    /// `Playing` on, and the follower only after the player.
    pub open spec fn consistent(self) -> bool {
        &&& (self.phase != Phase::Playing ==> self.player is None)
        &&& (self.phase == Phase::Playing ==> self.player is Some)
        &&& (self.follower is Some ==> self.player is Some)
    }
}

/// Owns the session's phase and the entities it has spawned.
pub struct SessionController {
    phase: Phase,
    player: Option<Entity>,
    follower: Option<Entity>,
}

impl View for SessionController {
    type V = SessionState;

    closed spec fn view(&self) -> SessionState {
        SessionState { phase: self.phase, player: self.player, follower: self.follower }
    }
}

impl SessionController {
    pub open spec fn wf(&self) -> bool {
        self@.consistent()
    }

    /// A session waiting for its sprites.
    pub fn new() -> (r: SessionController)
        ensures
            r.wf(),
            r@.phase == Phase::AssetLoading,
            r@.player is None,
            r@.follower is None,
    {
        SessionController { phase: Phase::AssetLoading, player: None, follower: None }
    }

    pub fn phase(&self) -> (r: Phase)
        ensures
            r == self@.phase,
    {
        self.phase
    }

    pub fn player(&self) -> (r: Option<Entity>)
        ensures
            r == self@.player,
    {
        self.player
    }

    pub fn follower(&self) -> (r: Option<Entity>)
        ensures
            r == self@.follower,
    {
        self.follower
    }

    /// The registry's completion signal: leaves `AssetLoading` for
    /// `InitialSpawn` once every sprite has loaded. It fires at most once;
    /// in any later phase it changes nothing.
    pub fn poll_assets(&mut self, assets: &AssetRegistry) -> (fired: bool)
        requires
            old(self).wf(),
        ensures
            final(self).wf(),
            fired == (old(self)@.phase == Phase::AssetLoading && assets.ready()),
            fired ==> final(self)@.phase == Phase::InitialSpawn,
            !fired ==> final(self)@.phase == old(self)@.phase,
            final(self)@.player == old(self)@.player,
            final(self)@.follower == old(self)@.follower,
    {
        if self.phase == Phase::AssetLoading && assets.is_ready() {
            self.phase = Phase::InitialSpawn;
            true
        } else {
            false
        }
    }

    /// The work of `InitialSpawn`: sets up the view, spawns the player, and
    /// on success enters `Playing`, whose entry spawns the follower. A failed
    /// player spawn leaves the phase at `InitialSpawn`; a failed follower
    /// spawn leaves the session in `Playing` without a follower. Outside
    /// `InitialSpawn` it does nothing and reports `PhaseViolation`.
    pub fn run_initial_spawn(&mut self, world: &mut World, assets: &AssetRegistry) -> (r: Result<
        (Entity, Entity),
        SpawnError,
    >)
        requires
            old(self).wf(),
            old(world).wf(),
            old(world).next_id() < u64::MAX - 1,
        ensures
            final(self).wf(),
            final(world).wf(),
            final(world).refuses() == old(world).refuses(),
            old(self)@.phase != Phase::InitialSpawn ==> {
                &&& r == Err::<(Entity, Entity), SpawnError>(SpawnError::PhaseViolation)
                &&& final(self)@ == old(self)@
                &&& final(world).entities() == old(world).entities()
                &&& final(world).next_id() == old(world).next_id()
                &&& final(world).view_ready() == old(world).view_ready()
            },
            old(self)@.phase == Phase::InitialSpawn ==> initial_spawn_outcome(
                old(world).entities(),
                old(world).next_id(),
                old(world).refuses(),
                *assets,
                final(self)@,
                final(world).entities(),
                final(world).next_id(),
                final(world).view_ready(),
                r,
            ),
    {
        if self.phase != Phase::InitialSpawn {
            return Err(SpawnError::PhaseViolation);
        }
        world.setup_view();
        let player = match spawn(world, assets, SpawnKind::Player, Vec2 { x: PLAYER_START_X, y: PLAYER_START_Y }) {
            Ok(e) => e,
            Err(err) => {
                return Err(err);
            },
        };
        self.player = Some(player);
        self.phase = Phase::Playing;
        let follower = match spawn(world, assets, SpawnKind::FollowEnemy, Vec2 { x: FOLLOWER_START_X, y: FOLLOWER_START_Y }) {
            Ok(e) => e,
            Err(err) => {
                return Err(err);
            },
        };
        self.follower = Some(follower);
        Ok((player, follower))
    }

    /// One tick of the session: in `AssetLoading` it polls the registry, in
    /// `InitialSpawn` it runs that phase's spawns, in `Playing` it does
    /// nothing. Returns the phase after the tick.
    pub fn step(&mut self, world: &mut World, assets: &AssetRegistry) -> (r: Result<Phase, SpawnError>)
        requires
            old(self).wf(),
            old(world).wf(),
            old(world).next_id() < u64::MAX - 1,
        ensures
            final(self).wf(),
            final(world).wf(),
            final(world).refuses() == old(world).refuses(),
            final(world).next_id() <= old(world).next_id() + 2,
            phase_step(old(self)@.phase, final(self)@.phase),
            r matches Ok(p) ==> p == final(self)@.phase,
            r is Err ==> old(self)@.phase == Phase::InitialSpawn,
            old(self)@.phase == Phase::AssetLoading ==> {
                &&& r == Ok::<Phase, SpawnError>(if assets.ready() { Phase::InitialSpawn } else { Phase::AssetLoading })
                &&& final(world).entities() == old(world).entities()
                &&& final(world).next_id() == old(world).next_id()
            },
            old(self)@.phase == Phase::InitialSpawn ==> {
                &&& initial_spawn_outcome(
                    old(world).entities(),
                    old(world).next_id(),
                    old(world).refuses(),
                    *assets,
                    final(self)@,
                    final(world).entities(),
                    final(world).next_id(),
                    final(world).view_ready(),
                    match r {
                        Ok(_) => Ok::<(Entity, Entity), SpawnError>(
                            (
                                Entity { id: old(world).next_id() },
                                Entity { id: (old(world).next_id() + 1) as u64 },
                            ),
                        ),
                        Err(e) => Err(e),
                    },
                )
                &&& (r is Ok <==> assets.ready() && old(world).refuses() is None)
                &&& r is Ok ==> r == Ok::<Phase, SpawnError>(Phase::Playing)
            },
            old(self)@.phase == Phase::Playing ==> {
                &&& r == Ok::<Phase, SpawnError>(Phase::Playing)
                &&& final(self)@ == old(self)@
                &&& final(world).entities() == old(world).entities()
                &&& final(world).next_id() == old(world).next_id()
            },
    {
        match self.phase {
            Phase::AssetLoading => {
                self.poll_assets(assets);
                Ok(self.phase)
            },
            Phase::InitialSpawn => {
                match self.run_initial_spawn(world, assets) {
                    Ok(_) => Ok(self.phase),
                    Err(err) => Err(err),
                }
            },
            Phase::Playing => Ok(Phase::Playing),
        }
    }
}

/// Observed phases never skip ahead nor return: in any run of observations
/// that starts in `AssetLoading` and moves by single steps, phases only
/// advance, and the i-th observation is at most i phases along.
pub proof fn lemma_phase_order(trace: Seq<Phase>)
    requires
        trace.len() > 0,
        trace[0] == Phase::AssetLoading,
        forall|i: int| 0 <= i < trace.len() - 1 ==> #[trigger] phase_step(trace[i], trace[i + 1]),
    ensures
        forall|i: int, j: int|
            0 <= i <= j < trace.len() ==> phase_rank(#[trigger] trace[i]) <= phase_rank(#[trigger] trace[j]),
        forall|i: int| 0 <= i < trace.len() ==> phase_rank(#[trigger] trace[i]) <= i,
    decreases trace.len(),
{
    if trace.len() > 1 {
        let prefix = trace.drop_last();
        assert forall|i: int| 0 <= i < prefix.len() - 1 implies #[trigger] phase_step(prefix[i], prefix[i + 1]) by {
            assert(phase_step(trace[i], trace[i + 1]));
        }
        lemma_phase_order(prefix);
        let n = trace.len() - 1;
        let k = n - 1;
        assert(phase_step(trace[k], trace[k + 1]));
        assert forall|i: int, j: int| 0 <= i <= j < trace.len() implies phase_rank(#[trigger] trace[i]) <= phase_rank(#[trigger] trace[j]) by {
            if j < n {
                assert(trace[i] == prefix[i] && trace[j] == prefix[j]);
            } else if i < n {
                assert(trace[i] == prefix[i] && trace[n - 1] == prefix[n - 1]);
            }
        }
        assert forall|i: int| 0 <= i < trace.len() implies phase_rank(#[trigger] trace[i]) <= i by {
            if i < n {
                assert(trace[i] == prefix[i]);
            } else {
                assert(trace[n - 1] == prefix[n - 1]);
            }
        }
    }
}

} // verus!
