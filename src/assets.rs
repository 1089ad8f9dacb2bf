//! The asset registry: the sprite handle of each kind, once it has loaded.

use vstd::prelude::*;

use crate::factory::SpawnKind;
use crate::spawner::SpawnError;

verus! {

/// A handle to a loaded sprite.
#[derive(Clone, Copy, Debug, PartialEq, Eq, Structural)]
pub struct Handle {
    pub id: u64,
}

/// Loaded sprite handles, one slot per kind.
#[derive(Clone, Copy, Debug, PartialEq, Eq, Structural)]
pub struct AssetRegistry {
    pub player: Option<Handle>,
    pub follow_enemy: Option<Handle>,
}

/// Where the sprite of a kind is loaded from.
pub fn asset_path(kind: SpawnKind) -> (r: &'static str)
    ensures
        kind == SpawnKind::Player ==> r@ == "sprites/pirate_ship.png"@,
        kind == SpawnKind::FollowEnemy ==> r@ == "sprites/green_fighter.png"@,
{
    match kind {
        SpawnKind::Player => "sprites/pirate_ship.png",
        SpawnKind::FollowEnemy => "sprites/green_fighter.png",
    }
}

impl AssetRegistry {
    pub open spec fn handle_of(self, kind: SpawnKind) -> Option<Handle> {
        match kind {
            SpawnKind::Player => self.player,
            SpawnKind::FollowEnemy => self.follow_enemy,
        }
    }

    /// Every required sprite has loaded.
    pub open spec fn ready(self) -> bool {
        self.player.is_some() && self.follow_enemy.is_some()
    }

    /// A registry in which nothing has loaded yet.
    pub fn new() -> (r: AssetRegistry)
        ensures
            r.player.is_none(),
            r.follow_enemy.is_none(),
    {
        AssetRegistry { player: None, follow_enemy: None }
    }

    /// Records that the sprite of `kind` has loaded as `handle`.
    pub fn mark_loaded(&mut self, kind: SpawnKind, handle: Handle)
        ensures
            final(self).handle_of(kind) == Some(handle),
            forall|k: SpawnKind| k != kind ==> final(self).handle_of(k) == old(self).handle_of(k),
    {
        match kind {
            SpawnKind::Player => self.player = Some(handle),
            SpawnKind::FollowEnemy => self.follow_enemy = Some(handle),
        }
    }

    /// Whether every required sprite has loaded.
    pub fn is_ready(&self) -> (r: bool)
        ensures
            r == self.ready(),
    {
        self.player.is_some() && self.follow_enemy.is_some()
    }

    /// The handle of `kind`'s sprite, or `AssetNotReady` while it has not loaded.
    pub fn get(&self, kind: SpawnKind) -> (r: Result<Handle, SpawnError>)
        ensures
            match self.handle_of(kind) {
                Some(h) => r == Ok::<Handle, SpawnError>(h),
                None => r == Err::<Handle, SpawnError>(SpawnError::AssetNotReady),
            },
    {
        let slot = match kind {
            SpawnKind::Player => self.player,
            SpawnKind::FollowEnemy => self.follow_enemy,
        };
        match slot {
            Some(h) => Ok(h),
            None => Err(SpawnError::AssetNotReady),
        }
    }
}

} // verus!
