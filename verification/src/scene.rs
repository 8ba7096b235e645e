//! The scene model: one record per game entity.
//!
//! The scene/world container itself is an external collaborator; this model
//! keeps exactly the attributes the orchestration core reads and writes. The
//! entity-to-collider association lives only here, as an attribute of the
//! entity record; the reverse direction is served by a scan, never by a
//! second index, so there is a single source of truth.

use vstd::prelude::*;
use crate::fx::{FX_ONE, POS_LIM};
use crate::vec3::Pose;
use crate::components::{PhysicsBody, Grabbable};

verus! {

/// Everything the core tracks about one entity.
#[derive(Clone, Copy, Debug, PartialEq, Eq, Structural)]
pub struct EntityRec {
    /// Opaque entity identity, unique within the scene.
    pub id: u64,
    /// The scene transform; for physics-backed entities a read-only
    /// projection of the body pose.
    pub transform: Pose,
    /// The currently applied material handle, if the entity is rendered.
    pub material: Option<u64>,
    /// Pick/hold eligibility and its material pair.
    pub grabbable: Option<Grabbable>,
    pub mergeable: bool,
    pub loading: bool,
    /// The player's own physical representation.
    pub camera_self: bool,
    /// The viewpoint entity.
    pub camera: bool,
    /// Collider handle in the physics world, if the entity has a body.
    pub body: Option<PhysicsBody>,
}

/// The set of entity records; ids are unique and smaller than `next_id`.
#[derive(Clone, Debug, PartialEq)]
pub struct Scene {
    pub entries: Vec<EntityRec>,
    pub next_id: u64,
}

/// A transform the model accepts: position within the world bound and
/// rotation entries within the fixed-point unit.
pub open spec fn transform_ok(p: Pose) -> bool {
    p.bounded(POS_LIM as int, FX_ONE as int)
}

impl Scene {
    /// Ids are pairwise distinct, below `next_id`, and transforms in range.
    pub open spec fn wf(self) -> bool {
        &&& forall|i: int, j: int|
            0 <= i < j < self.entries@.len() ==> self.entries@[i].id != self.entries@[j].id
        &&& forall|i: int| 0 <= i < self.entries@.len() ==> self.entries@[i].id < self.next_id
        &&& forall|i: int|
            0 <= i < self.entries@.len() ==> transform_ok(#[trigger] self.entries@[i].transform)
    }

    /// There is a record with this id.
    pub open spec fn has_entity(self, id: u64) -> bool {
        exists|i: int| 0 <= i < self.entries@.len() && self.entries@[i].id == id
    }

    /// The index of the record with this id (unique under `wf`).
    pub open spec fn idx_of(self, id: u64) -> int
        recommends
            self.has_entity(id),
    {
        choose|i: int| 0 <= i < self.entries@.len() && self.entries@[i].id == id
    }

    /// The record with this id (unique under `wf`).
    pub open spec fn entity(self, id: u64) -> EntityRec
        recommends
            self.has_entity(id),
    {
        self.entries@[self.idx_of(id)]
    }

    /// An empty scene.
    pub fn new() -> (r: Scene)
        ensures
            r.wf(),
            r.entries@.len() == 0,
            r.next_id == 0,
    {
        Scene { entries: Vec::new(), next_id: 0 }
    }

    /// Adds an entity with a fresh id; every other field is taken from the
    /// template, whose `id` field is ignored.
    pub fn spawn(&mut self, template: EntityRec) -> (id: u64)
        requires
            old(self).wf(),
            old(self).next_id < u64::MAX,
            transform_ok(template.transform),
        ensures
            final(self).wf(),
            id == old(self).next_id,
            final(self).next_id == old(self).next_id + 1,
            final(self).entries@ === old(self).entries@.push(
                EntityRec { id: old(self).next_id, ..template },
            ),
            final(self).has_entity(id),
            final(self).entity(id) === (EntityRec { id: old(self).next_id, ..template }),
    {
        let id: u64 = self.next_id;
        let rec: EntityRec = EntityRec { id, ..template };
        self.entries.push(rec);
        self.next_id = id + 1;
        proof {
            let n: int = self.entries@.len() - 1;
            assert(self.entries@[n].id == id);
            let w: int = self.idx_of(id);
            assert(0 <= w < self.entries@.len() && self.entries@[w].id == id);
            assert(w == n);
        }
        id
    }

    /// First index of the record with the given id.
    pub fn find_index(&self, id: u64) -> (r: Option<usize>)
        ensures
            match r {
                Some(i) => i < self.entries@.len() && self.entries@[i as int].id == id,
                None => !self.has_entity(id),
            },
    {
        let mut i: usize = 0;
        while i < self.entries.len()
            invariant
                i <= self.entries@.len(),
                forall|j: int| 0 <= j < i ==> self.entries@[j].id != id,
            decreases self.entries@.len() - i,
        {
            if self.entries[i].id == id {
                return Some(i);
            }
            i = i + 1;
        }
        None
    }

    /// The collider handle registered for this entity, if any.
    pub fn body_for(&self, id: u64) -> (r: Option<u64>)
        requires
            self.wf(),
        ensures
            match r {
                Some(h) => self.has_entity(id) && self.entity(id).body === Some(PhysicsBody(h)),
                None => !self.has_entity(id) || self.entity(id).body is None,
            },
    {
        let idx: Option<usize> = self.find_index(id);
        match idx {
            Some(i) => {
                proof {
                    let w: int = self.idx_of(id);
                    assert(0 <= w < self.entries@.len() && self.entries@[w].id == id);
                    assert(w == i as int);
                }
                match self.entries[i].body {
                    Some(pb) => Some(pb.0),
                    None => None,
                }
            },
            None => None,
        }
    }

    /// The entity whose record holds this collider handle: the natural join
    /// between the entity set and the collider attribute (first match).
    pub fn entity_for(&self, collider: u64) -> (r: Option<u64>)
        ensures
            match r {
                Some(e) => exists|i: int|
                    0 <= i < self.entries@.len() && self.entries@[i].id == e
                        && self.entries@[i].body === Some(PhysicsBody(collider)),
                None => forall|i: int|
                    0 <= i < self.entries@.len() ==> self.entries@[i].body !== Some(
                        PhysicsBody(collider),
                    ),
            },
    {
        let mut i: usize = 0;
        while i < self.entries.len()
            invariant
                i <= self.entries@.len(),
                forall|j: int|
                    0 <= j < i ==> self.entries@[j].body !== Some(PhysicsBody(collider)),
            decreases self.entries@.len() - i,
        {
            match self.entries[i].body {
                Some(pb) => {
                    if pb.0 == collider {
                        return Some(self.entries[i].id);
                    }
                },
                None => {},
            }
            i = i + 1;
        }
        None
    }

    /// Overwrites the material of the entity, if it exists; reports whether
    /// it did. No other record and no other field changes.
    pub fn set_material(&mut self, id: u64, material: u64) -> (r: bool)
        requires
            old(self).wf(),
        ensures
            final(self).wf(),
            r == old(self).has_entity(id),
            final(self).next_id == old(self).next_id,
            final(self).entries@.len() == old(self).entries@.len(),
            forall|i: int|
                0 <= i < old(self).entries@.len() && old(self).entries@[i].id != id
                    ==> final(self).entries@[i] === old(self).entries@[i],
            old(self).has_entity(id) ==> final(self).entries@[old(self).idx_of(id)] === (
            EntityRec { material: Some(material), ..old(self).entity(id) }),
    {
        let idx: Option<usize> = self.find_index(id);
        match idx {
            Some(i) => {
                proof {
                    let w: int = old(self).idx_of(id);
                    assert(0 <= w < old(self).entries@.len() && old(self).entries@[w].id == id);
                    assert(w == i as int);
                }
                let updated: EntityRec = EntityRec { material: Some(material), ..self.entries[i] };
                self.entries.set(i, updated);
                true
            },
            None => {
                proof {
                    assert(!old(self).has_entity(id));
                }
                false
            },
        }
    }

    /// Overwrites the transform of the entity, if it exists; reports whether
    /// it did. No other record and no other field changes.
    pub fn set_transform(&mut self, id: u64, transform: Pose) -> (r: bool)
        requires
            old(self).wf(),
            transform_ok(transform),
        ensures
            final(self).wf(),
            r == old(self).has_entity(id),
            final(self).next_id == old(self).next_id,
            final(self).entries@.len() == old(self).entries@.len(),
            forall|i: int|
                0 <= i < old(self).entries@.len() && old(self).entries@[i].id != id
                    ==> final(self).entries@[i] === old(self).entries@[i],
            old(self).has_entity(id) ==> final(self).entries@[old(self).idx_of(id)] === (
            EntityRec { transform, ..old(self).entity(id) }),
    {
        let idx: Option<usize> = self.find_index(id);
        match idx {
            Some(i) => {
                proof {
                    let w: int = old(self).idx_of(id);
                    assert(0 <= w < old(self).entries@.len() && old(self).entries@[w].id == id);
                    assert(w == i as int);
                }
                let updated: EntityRec = EntityRec { transform, ..self.entries[i] };
                self.entries.set(i, updated);
                true
            },
            None => false,
        }
    }

    /// A template with no components set, at the origin.
    pub fn blank(transform: Pose) -> (r: EntityRec)
        ensures
            r === (EntityRec {
                id: 0,
                transform,
                material: None,
                grabbable: None,
                mergeable: false,
                loading: false,
                camera_self: false,
                camera: false,
                body: None,
            }),
    {
        EntityRec {
            id: 0,
            transform,
            material: None,
            grabbable: None,
            mergeable: false,
            loading: false,
            camera_self: false,
            camera: false,
            body: None,
        }
    }
}

} // verus!
