//! The scene store: entities and their components.
//!
//! An entity is named by the order in which it was spawned. Entities are
//! never taken out, so a name stays good, and a query run twice without a
//! spawn in between answers the same.

use crate::components::{Camera, Position, Rotation, Scale};
use crate::entities::Bundle;
use crate::mesh::Mesh;
use vstd::prelude::*;

verus! {

/// The name of an entity.
#[derive(Clone, Copy, Debug, PartialEq, Eq, Structural)]
pub struct EntityId(pub usize);

/// A choice of components to ask for.
#[derive(Clone, Copy, Debug, PartialEq, Eq, Structural)]
pub struct ComponentSet {
    pub position: bool,
    pub rotation: bool,
    pub scale: bool,
    pub camera: bool,
    pub mesh: bool,
}

/// Whether the entity has every component of `set`.
pub open spec fn carries(bundle: Bundle, set: ComponentSet) -> bool {
    &&& set.position ==> bundle.position is Some
    &&& set.rotation ==> bundle.rotation is Some
    &&& set.scale ==> bundle.scale is Some
    &&& set.camera ==> bundle.camera is Some
    &&& set.mesh ==> bundle.mesh is Some
}

/// Among the first `upto` entities, those that have every component of
/// `set`, in the order they were spawned.
pub open spec fn matching(entities: Seq<Bundle>, set: ComponentSet, upto: int) -> Seq<EntityId>
    decreases upto,
{
    if upto <= 0 {
        Seq::empty()
    } else {
        let before = matching(entities, set, upto - 1);
        if carries(entities[upto - 1], set) {
            before.push(EntityId((upto - 1) as usize))
        } else {
            before
        }
    }
}

/// A query answers with exactly the entities that have the components,
/// each once, oldest first.
pub proof fn lemma_matching(entities: Seq<Bundle>, set: ComponentSet, upto: int)
    requires
        0 <= upto <= entities.len() <= usize::MAX,
    ensures
        matching(entities, set, upto).len() <= upto,
        forall|k: int|
            0 <= k < matching(entities, set, upto).len() ==> {
                let id = (#[trigger] matching(entities, set, upto)[k]).0;
                id < upto && carries(entities[id as int], set)
            },
        forall|j: int, k: int|
            0 <= j < k < matching(entities, set, upto).len() ==> (#[trigger] matching(
                entities,
                set,
                upto,
            )[j]).0 < (#[trigger] matching(entities, set, upto)[k]).0,
        forall|i: int|
            0 <= i < upto && carries(#[trigger] entities[i], set) ==> matching(
                entities,
                set,
                upto,
            ).contains(EntityId(i as usize)),
    decreases upto,
{
    if upto > 0 {
        lemma_matching(entities, set, upto - 1);
        let before = matching(entities, set, upto - 1);
        let now = matching(entities, set, upto);
        assert forall|i: int| 0 <= i < upto && carries(#[trigger] entities[i], set) implies now.contains(
            EntityId(i as usize),
        ) by {
            if i < upto - 1 {
                assert(before.contains(EntityId(i as usize)));
                let k = choose|k: int| 0 <= k < before.len() && before[k] == EntityId(i as usize);
                assert(now[k] == EntityId(i as usize));
            } else {
                assert(now[now.len() - 1] == EntityId(i as usize));
            }
        }
    }
}

/// Every entity of the scene.
#[derive(Debug)]
pub struct SceneStore {
    entities: Vec<Bundle>,
}

impl View for SceneStore {
    type V = Seq<Bundle>;

    closed spec fn view(&self) -> Seq<Bundle> {
        self.entities@
    }
}

impl SceneStore {
    /// A scene without entities.
    pub fn new() -> (store: SceneStore)
        ensures
            store@ == Seq::<Bundle>::empty(),
    {
        SceneStore { entities: Vec::new() }
    }

    /// How many entities there are.
    pub fn len(&self) -> (count: usize)
        ensures
            count == self@.len(),
    {
        self.entities.len()
    }

    /// Adds an entity with the given components and returns its name, one
    /// no entity had before.
    pub fn spawn(&mut self, bundle: Bundle) -> (id: EntityId)
        ensures
            id.0 == old(self)@.len(),
            final(self)@ == old(self)@.push(bundle),
    {
        let id = EntityId(self.entities.len());
        self.entities.push(bundle);
        id
    }

    /// The entities that have every component of `set`, oldest first.
    pub fn query(&self, set: &ComponentSet) -> (found: Vec<EntityId>)
        ensures
            found@ == matching(self@, *set, self@.len() as int),
    {
        let mut found: Vec<EntityId> = Vec::new();
        let mut i: usize = 0;
        while i < self.entities.len()
            invariant
                i <= self.entities.len(),
                found@ == matching(self@, *set, i as int),
            decreases self.entities.len() - i,
        {
            let bundle = &self.entities[i];
            let fits = (!set.position || bundle.position.is_some()) && (!set.rotation
                || bundle.rotation.is_some()) && (!set.scale || bundle.scale.is_some()) && (
            !set.camera || bundle.camera.is_some()) && (!set.mesh || bundle.mesh.is_some());
            if fits {
                found.push(EntityId(i));
            }
            i += 1;
        }
        found
    }

    /// The components of an entity, if there is such an entity.
    pub fn get(&self, id: EntityId) -> (found: Option<&Bundle>)
        ensures
            found == if id.0 < self@.len() {
                Some(&self@[id.0 as int])
            } else {
                None
            },
    {
        if id.0 < self.entities.len() {
            Some(&self.entities[id.0])
        } else {
            None
        }
    }

    /// Gives the entity a position in place of the one it has. Says whether
    /// there is such an entity and it has one.
    pub fn set_position(&mut self, id: EntityId, position: Position) -> (done: bool)
        ensures
            done == (id.0 < old(self)@.len() && old(self)@[id.0 as int].position is Some),
            done ==> final(self)@ == old(self)@.update(
                id.0 as int,
                Bundle { position: Some(position), ..old(self)@[id.0 as int] },
            ),
            !done ==> final(self)@ == old(self)@,
    {
        if id.0 < self.entities.len() && self.entities[id.0].position.is_some() {
            self.entities[id.0].position = Some(position);
            true
        } else {
            false
        }
    }

    /// Gives the entity a rotation in place of the one it has. Says whether
    /// there is such an entity and it has one.
    pub fn set_rotation(&mut self, id: EntityId, rotation: Rotation) -> (done: bool)
        ensures
            done == (id.0 < old(self)@.len() && old(self)@[id.0 as int].rotation is Some),
            done ==> final(self)@ == old(self)@.update(
                id.0 as int,
                Bundle { rotation: Some(rotation), ..old(self)@[id.0 as int] },
            ),
            !done ==> final(self)@ == old(self)@,
    {
        if id.0 < self.entities.len() && self.entities[id.0].rotation.is_some() {
            self.entities[id.0].rotation = Some(rotation);
            true
        } else {
            false
        }
    }

    /// Gives the entity a scale in place of the one it has. Says whether
    /// there is such an entity and it has one.
    pub fn set_scale(&mut self, id: EntityId, scale: Scale) -> (done: bool)
        ensures
            done == (id.0 < old(self)@.len() && old(self)@[id.0 as int].scale is Some),
            done ==> final(self)@ == old(self)@.update(
                id.0 as int,
                Bundle { scale: Some(scale), ..old(self)@[id.0 as int] },
            ),
            !done ==> final(self)@ == old(self)@,
    {
        if id.0 < self.entities.len() && self.entities[id.0].scale.is_some() {
            self.entities[id.0].scale = Some(scale);
            true
        } else {
            false
        }
    }

    /// Gives the entity a camera in place of the one it has. Says whether
    /// there is such an entity and it has one.
    pub fn set_camera(&mut self, id: EntityId, camera: Camera) -> (done: bool)
        ensures
            done == (id.0 < old(self)@.len() && old(self)@[id.0 as int].camera is Some),
            done ==> final(self)@ == old(self)@.update(
                id.0 as int,
                Bundle { camera: Some(camera), ..old(self)@[id.0 as int] },
            ),
            !done ==> final(self)@ == old(self)@,
    {
        if id.0 < self.entities.len() && self.entities[id.0].camera.is_some() {
            self.entities[id.0].camera = Some(camera);
            true
        } else {
            false
        }
    }

    /// Takes the mesh away from the entity and hands it to the caller, who
    /// sees to its destruction. The entity stays, without a mesh.
    pub fn take_mesh(&mut self, id: EntityId) -> (taken: Option<Mesh>)
        ensures
            taken == if id.0 < old(self)@.len() {
                old(self)@[id.0 as int].mesh
            } else {
                None
            },
            id.0 < old(self)@.len() ==> final(self)@ == old(self)@.update(
                id.0 as int,
                Bundle { mesh: None, ..old(self)@[id.0 as int] },
            ),
            id.0 >= old(self)@.len() ==> final(self)@ == old(self)@,
    {
        if id.0 < self.entities.len() {
            self.entities[id.0].mesh.take()
        } else {
            None
        }
    }
}

} // verus!
