//! The component store: entities and the components attached to them.

use std::collections::HashMap;

use vstd::prelude::*;

use crate::assets::Handle;
use crate::factory::{ColliderSpec, RigidBodySpec, Transform};

verus! {

broadcast use vstd::std_specs::hash::group_hash_axioms;

/// An entity identifier, unique for the life of its store.
#[derive(Clone, Copy, Debug, PartialEq, Eq, Structural)]
pub struct Entity {
    pub id: u64,
}

/// What is attached to one entity.
#[derive(Clone, Copy, Debug, PartialEq, Eq, Structural)]
pub struct Components {
    pub transform: Option<Transform>,
    pub sprite: Option<Handle>,
    pub body: Option<RigidBodySpec>,
    pub collider: Option<ColliderSpec>,
}

/// One component to attach.
#[derive(Clone, Copy, Debug, PartialEq, Eq, Structural)]
pub enum Component {
    Transform(Transform),
    Sprite(Handle),
    Body(RigidBodySpec),
    Collider(ColliderSpec),
}

#[derive(Clone, Copy, Debug, PartialEq, Eq, Structural)]
pub enum ComponentKind {
    Transform,
    Sprite,
    Body,
    Collider,
}

/// Why the store refused an attach.
#[derive(Clone, Copy, Debug, PartialEq, Eq, Structural)]
pub enum StoreError {
    /// The entity is not in the store.
    NoSuchEntity,
    /// The store does not take components of this kind.
    Rejected,
    /// A rigid body whose tag names another entity.
    TagMismatch,
}

impl Component {
    pub open spec fn kind(self) -> ComponentKind {
        match self {
            Component::Transform(_) => ComponentKind::Transform,
            Component::Sprite(_) => ComponentKind::Sprite,
            Component::Body(_) => ComponentKind::Body,
            Component::Collider(_) => ComponentKind::Collider,
        }
    }

    /// The component names an owner other than `e`.
    pub open spec fn misdirected(self, e: Entity) -> bool {
        match self {
            Component::Body(b) => b.user_tag != e,
            _ => false,
        }
    }
}

impl Components {
    pub open spec fn bare() -> Components {
        Components { transform: None, sprite: None, body: None, collider: None }
    }

    /// These components with `c` attached, replacing any of its kind.
    pub open spec fn with(self, c: Component) -> Components {
        match c {
            Component::Transform(t) => Components { transform: Some(t), ..self },
            Component::Sprite(s) => Components { sprite: Some(s), ..self },
            Component::Body(b) => Components { body: Some(b), ..self },
            Component::Collider(k) => Components { collider: Some(k), ..self },
        }
    }
}

/// The outcome of attaching `c` to `e` in a store holding `entities` that
/// refuses components of kind `refuses`.
pub open spec fn attach_outcome(
    entities: Map<u64, Components>,
    refuses: Option<ComponentKind>,
    e: Entity,
    c: Component,
) -> Result<(), StoreError> {
    if !entities.contains_key(e.id) {
        Err(StoreError::NoSuchEntity)
    } else if refuses == Some(c.kind()) {
        Err(StoreError::Rejected)
    } else if c.misdirected(e) {
        Err(StoreError::TagMismatch)
    } else {
        Ok(())
    }
}

/// The entity store, with the physics and view settings of the session.
pub struct World {
    next_id: u64,
    entities: HashMap<u64, Components>,
    refuses: Option<ComponentKind>,
    view_ready: bool,
}

impl World {
    /// Entities in the store and their components, keyed by identifier.
    pub closed spec fn entities(&self) -> Map<u64, Components> {
        self.entities@
    }

    /// The identifier the next allocation hands out.
    pub closed spec fn next_id(&self) -> u64 {
        self.next_id
    }

    /// The kind of component this store refuses to attach, if any.
    pub closed spec fn refuses(&self) -> Option<ComponentKind> {
        self.refuses
    }

    /// Whether the view and physics settings have been set up.
    pub closed spec fn view_ready(&self) -> bool {
        self.view_ready
    }

    /// Identifiers already handed out lie below `next_id`, and each rigid
    /// body is tagged with the entity that owns it.
    pub closed spec fn wf(&self) -> bool {
        forall|id: u64| #[trigger]
            self.entities@.contains_key(id) ==> {
                &&& id < self.next_id
                &&& (self.entities@[id].body matches Some(b) ==> b.user_tag.id == id)
            }
    }

    /// The store's invariant, as callers see it: every stored identifier is
    /// below `next_id()`, so a fresh allocation never meets a stored entity,
    /// and each rigid body is tagged with the entity that owns it.
    pub proof fn lemma_wf_facts(&self)
        requires
            self.wf(),
        ensures
            forall|id: u64| #[trigger]
                self.entities().contains_key(id) ==> {
                    &&& id < self.next_id()
                    &&& (self.entities()[id].body matches Some(b) ==> b.user_tag.id == id)
                },
    {
    }

    /// An empty store that accepts every component.
    pub fn new() -> (r: World)
        ensures
            r.wf(),
            r.entities() == Map::<u64, Components>::empty(),
            r.next_id() == 0,
            r.refuses() == None::<ComponentKind>,
            !r.view_ready(),
    {
        World { next_id: 0, entities: HashMap::new(), refuses: None, view_ready: false }
    }

    /// An empty store that refuses every component of kind `kind`.
    pub fn refusing(kind: ComponentKind) -> (r: World)
        ensures
            r.wf(),
            r.entities() == Map::<u64, Components>::empty(),
            r.next_id() == 0,
            r.refuses() == Some(kind),
            !r.view_ready(),
    {
        World { next_id: 0, entities: HashMap::new(), refuses: Some(kind), view_ready: false }
    }

    /// Sets up the view and physics settings that spawning relies on.
    pub fn setup_view(&mut self)
        requires
            old(self).wf(),
        ensures
            final(self).wf(),
            final(self).view_ready(),
            final(self).entities() == old(self).entities(),
            final(self).next_id() == old(self).next_id(),
            final(self).refuses() == old(self).refuses(),
    {
        self.view_ready = true;
    }

    pub fn is_view_ready(&self) -> (r: bool)
        ensures
            r == self.view_ready(),
    {
        self.view_ready
    }

    pub fn contains(&self, e: Entity) -> (r: bool)
        ensures
            r == self.entities().contains_key(e.id),
    {
        self.entities.contains_key(&e.id)
    }

    /// The components attached to `e`, if it is in the store.
    pub fn components(&self, e: Entity) -> (r: Option<Components>)
        ensures
            r == (if self.entities().contains_key(e.id) {
                Some(self.entities()[e.id])
            } else {
                None
            }),
    {
        match self.entities.get(&e.id) {
            Some(c) => Some(*c),
            None => None,
        }
    }

    /// Creates an entity with nothing attached.
    pub fn allocate(&mut self) -> (e: Entity)
        requires
            old(self).wf(),
            old(self).next_id() < u64::MAX,
        ensures
            final(self).wf(),
            e.id == old(self).next_id(),
            !old(self).entities().contains_key(e.id),
            final(self).entities() == old(self).entities().insert(e.id, Components::bare()),
            final(self).next_id() == old(self).next_id() + 1,
            final(self).refuses() == old(self).refuses(),
            final(self).view_ready() == old(self).view_ready(),
    {
        let e = Entity { id: self.next_id };
        self.entities.insert(e.id, Components {
            transform: None,
            sprite: None,
            body: None,
            collider: None,
        });
        self.next_id = self.next_id + 1;
        e
    }

    /// Attaches `c` to `e`, replacing a component of the same kind.
    pub fn attach(&mut self, e: Entity, c: Component) -> (r: Result<(), StoreError>)
        requires
            old(self).wf(),
        ensures
            final(self).wf(),
            r == attach_outcome(old(self).entities(), old(self).refuses(), e, c),
            r is Ok ==> final(self).entities() == old(self).entities().insert(
                e.id,
                old(self).entities()[e.id].with(c),
            ),
            r is Err ==> final(self).entities() == old(self).entities(),
            final(self).next_id() == old(self).next_id(),
            final(self).refuses() == old(self).refuses(),
            final(self).view_ready() == old(self).view_ready(),
    {
        let current = match self.entities.get(&e.id) {
            Some(found) => *found,
            None => {
                return Err(StoreError::NoSuchEntity);
            },
        };
        let kind = match c {
            Component::Transform(_) => ComponentKind::Transform,
            Component::Sprite(_) => ComponentKind::Sprite,
            Component::Body(_) => ComponentKind::Body,
            Component::Collider(_) => ComponentKind::Collider,
        };
        if self.refuses == Some(kind) {
            return Err(StoreError::Rejected);
        }
        let updated = match c {
            Component::Transform(t) => Components { transform: Some(t), ..current },
            Component::Sprite(s) => Components { sprite: Some(s), ..current },
            Component::Body(b) => {
                if b.user_tag.id != e.id {
                    return Err(StoreError::TagMismatch);
                }
                Components { body: Some(b), ..current }
            },
            Component::Collider(k) => Components { collider: Some(k), ..current },
        };
        self.entities.insert(e.id, updated);
        Ok(())
    }

    /// Removes `e` and everything attached to it.
    pub fn rollback(&mut self, e: Entity)
        requires
            old(self).wf(),
        ensures
            final(self).wf(),
            final(self).entities() == old(self).entities().remove(e.id),
            final(self).next_id() == old(self).next_id(),
            final(self).refuses() == old(self).refuses(),
            final(self).view_ready() == old(self).view_ready(),
    {
        self.entities.remove(&e.id);
    }

    /// The entity whose rigid body carries `tag`: a lookup only.
    pub fn body_owner(&self, tag: u64) -> (r: Option<Entity>)
        requires
            self.wf(),
        ensures
            r == (if self.entities().contains_key(tag) && self.entities()[tag].body is Some {
                Some(Entity { id: tag })
            } else {
                None
            }),
            r matches Some(o) ==> self.entities()[o.id].body.unwrap().user_tag == o,
    {
        match self.entities.get(&tag) {
            Some(c) => match c.body {
                Some(_) => Some(Entity { id: tag }),
                None => None,
            },
            None => None,
        }
    }
}

} // verus!
