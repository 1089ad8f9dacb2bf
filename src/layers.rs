//! Collision groups: each body belongs to some groups and accepts contact
//! with some groups; two bodies meet only when each accepts the other.

use vstd::prelude::*;

use crate::factory::SpawnKind;

verus! {

/// Membership and filter bitmasks of one collider.
#[derive(Clone, Copy, Debug, PartialEq, Eq, Structural)]
pub struct InteractionGroups {
    /// Groups this collider belongs to.
    pub memberships: u16,
    /// Groups this collider may interact with.
    pub filter: u16,
}

/// `a` declares that it can hit `b`: one of `b`'s groups is in `a`'s filter.
pub open spec fn can_hit(a: InteractionGroups, b: InteractionGroups) -> bool {
    b.memberships & a.filter != 0
}

/// Two colliders interact when each of them can hit the other.
pub open spec fn groups_interact(a: InteractionGroups, b: InteractionGroups) -> bool {
    can_hit(a, b) && can_hit(b, a)
}

impl InteractionGroups {
    pub fn new(memberships: u16, filter: u16) -> (r: InteractionGroups)
        ensures
            r.memberships == memberships,
            r.filter == filter,
    {
        InteractionGroups { memberships, filter }
    }

    /// Whether the two colliders are considered for contact.
    pub fn test(self, other: InteractionGroups) -> (r: bool)
        ensures
            r == groups_interact(self, other),
    {
        (self.memberships & other.filter) != 0 && (other.memberships & self.filter) != 0
    }
}

/// Interaction is symmetric: the order of the two colliders does not matter.
pub proof fn lemma_interaction_symmetric(a: InteractionGroups, b: InteractionGroups)
    ensures
        groups_interact(a, b) == groups_interact(b, a),
{
}

/// Groups the player belongs to.
pub const PLAYER_MEMBERSHIP: u16 = 0x00100;

/// Groups the player accepts contact with.
pub const PLAYER_FILTER: u16 = 0x00001;

/// Groups the follower belongs to.
pub const FOLLOWER_MEMBERSHIP: u16 = 0x00001;

/// Groups the follower accepts contact with.
pub const FOLLOWER_FILTER: u16 = 0x00110;

/// The layer table: which groups each kind of body belongs to and accepts.
pub open spec fn kind_groups(kind: SpawnKind) -> InteractionGroups {
    match kind {
        SpawnKind::Player => InteractionGroups { memberships: PLAYER_MEMBERSHIP, filter: PLAYER_FILTER },
        SpawnKind::FollowEnemy => InteractionGroups {
            memberships: FOLLOWER_MEMBERSHIP,
            filter: FOLLOWER_FILTER,
        },
    }
}

/// The collision groups of a kind of body.
pub fn groups_for(kind: SpawnKind) -> (r: InteractionGroups)
    ensures
        r == kind_groups(kind),
{
    match kind {
        SpawnKind::Player => InteractionGroups::new(PLAYER_MEMBERSHIP, PLAYER_FILTER),
        SpawnKind::FollowEnemy => InteractionGroups::new(FOLLOWER_MEMBERSHIP, FOLLOWER_FILTER),
    }
}

/// Whether bodies of the two kinds are considered for contact.
pub fn kinds_interact(a: SpawnKind, b: SpawnKind) -> (r: bool)
    ensures
        r == groups_interact(kind_groups(a), kind_groups(b)),
{
    groups_for(a).test(groups_for(b))
}

/// Under the layer table, two bodies meet exactly when they are of different
/// kinds: the player and the follower collide, while two players, or two
/// followers, pass through each other.
pub proof fn lemma_kinds_interact_iff_distinct(a: SpawnKind, b: SpawnKind)
    ensures
        groups_interact(kind_groups(a), kind_groups(b)) <==> a != b,
{
    assert(0x00100u16 & 0x00001u16 == 0) by (bit_vector);
    assert(0x00100u16 & 0x00110u16 != 0) by (bit_vector);
    assert(0x00001u16 & 0x00001u16 != 0) by (bit_vector);
    assert(0x00001u16 & 0x00110u16 == 0) by (bit_vector);
}

} // verus!
