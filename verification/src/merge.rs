//! Merging: collecting a pointed-at object together with its mergeable
//! contact neighbours.
//!
//! The engine reports which collider pairs are in contact; given those
//! pairs and the ray-hit results, the system picks the pointed mergeable
//! object within reach and lists it with every mergeable entity whose
//! collider touches it.

use vstd::prelude::*;
use crate::scene::Scene;
use crate::picking::{RayHit, TargetTag, is_first_min, find_pointed_object};
use crate::components::PhysicsBody;

verus! {

/// Furthest time of impact at which an object can be merge-targeted
/// (fixed-point 5).
pub const MAX_TOI_MERGE: i64 = 327680;

/// One contact between two colliders, as the engine reports it.
#[derive(Clone, Copy, Debug, PartialEq, Eq, Structural)]
pub struct ContactPair {
    pub a: u64,
    pub b: u64,
}

/// The merge system; it holds no state between frames.
#[derive(Clone, Copy, Debug, PartialEq, Eq, Structural, Default)]
pub struct MergeSystem;

/// No two entity records carry the same collider handle: the association
/// is one-to-one.
pub open spec fn unique_bodies_s(scene: Scene) -> bool {
    forall|i: int, j: int|
        0 <= i < j < scene.entries@.len() ==> !(scene.entries@[i].body is Some
            && scene.entries@[i].body === scene.entries@[j].body)
}

/// The collider on the other side of a contact with `center`, if any.
pub open spec fn partner_s(p: ContactPair, center: u64) -> Option<u64> {
    if p.a == center {
        Some(p.b)
    } else if p.b == center {
        Some(p.a)
    } else {
        None
    }
}

/// The mergeable entity owning collider `c`, if one exists.
pub open spec fn mergeable_owner_s(scene: Scene, c: u64) -> Option<u64> {
    if exists|i: int|
        0 <= i < scene.entries@.len() && scene.entries@[i].mergeable && scene.entries@[i].body
            === Some(PhysicsBody(c)) {
        let i = choose|i: int|
            0 <= i < scene.entries@.len() && scene.entries@[i].mergeable
                && scene.entries@[i].body === Some(PhysicsBody(c));
        Some(scene.entries@[i].id)
    } else {
        None
    }
}

/// The mergeable neighbours of the collider `center`, in contact order.
pub open spec fn merge_partners_s(scene: Scene, contacts: Seq<ContactPair>, center: u64) -> Seq<
    u64,
>
    decreases contacts.len(),
{
    if contacts.len() == 0 {
        Seq::empty()
    } else {
        let rest = merge_partners_s(scene, contacts.drop_last(), center);
        match partner_s(contacts.last(), center) {
            Some(t) => match mergeable_owner_s(scene, t) {
                Some(e) => rest.push(e),
                None => rest,
            },
            None => rest,
        }
    }
}

/// The mergeable entity owning collider `c` (first match; unique under
/// `unique_bodies_s`).
fn find_mergeable_owner(scene: &Scene, c: u64) -> (r: Option<u64>)
    requires
        scene.wf(),
        unique_bodies_s(*scene),
    ensures
        r === mergeable_owner_s(*scene, c),
{
    let mut i: usize = 0;
    while i < scene.entries.len()
        invariant
            scene.wf(),
            unique_bodies_s(*scene),
            i <= scene.entries@.len(),
            forall|j: int|
                0 <= j < i ==> !(scene.entries@[j].mergeable && scene.entries@[j].body === Some(
                    PhysicsBody(c),
                )),
        decreases scene.entries@.len() - i,
    {
        let is_match: bool = scene.entries[i].mergeable && match scene.entries[i].body {
            Some(pb) => pb.0 == c,
            None => false,
        };
        if is_match {
            proof {
                let w: int = choose|w: int|
                    0 <= w < scene.entries@.len() && scene.entries@[w].mergeable
                        && scene.entries@[w].body === Some(PhysicsBody(c));
                if w < i as int {
                    assert(false);
                } else if (i as int) < w {
                    assert(!(scene.entries@[i as int].body is Some && scene.entries@[i
                        as int].body === scene.entries@[w].body));
                    assert(false);
                }
            }
            return Some(scene.entries[i].id);
        }
        i = i + 1;
    }
    None
}

impl MergeSystem {
    /// One merge frame. With the merge key down and a mergeable object
    /// pointed at within reach, returns that entity followed by every
    /// mergeable entity in contact with it; otherwise nothing. The caller
    /// reports the set; no entity is modified here.
    pub fn run(
        &self,
        scene: &Scene,
        hits: &Vec<RayHit>,
        contacts: &Vec<ContactPair>,
        merge_key_down: bool,
    ) -> (r: Option<Vec<u64>>)
        requires
            scene.wf(),
            unique_bodies_s(*scene),
        ensures
            !merge_key_down ==> r is None,
            merge_key_down ==> ((r is Some) <==> (exists|i: int|
                is_first_min(*scene, hits@, TargetTag::Merge, i) && hits@[i].toi
                    < MAX_TOI_MERGE)),
            r is Some ==> exists|i: int|
                {
                    &&& is_first_min(*scene, hits@, TargetTag::Merge, i)
                    &&& hits@[i].toi < MAX_TOI_MERGE
                    &&& {
                        let center = match scene.entity(hits@[i].entity).body {
                            Some(pb) => pb.0,
                            None => 0,
                        };
                        let v = r->0;
                        &&& v@.len() >= 1
                        &&& v@[0] == hits@[i].entity
                        &&& v@.subrange(1, v@.len() as int) === merge_partners_s(
                            *scene,
                            contacts@,
                            center,
                        )
                    }
                },
    {
        if !merge_key_down {
            return None;
        }
        let picked: Option<RayHit> = find_pointed_object(scene, hits, TargetTag::Merge);
        let hit: RayHit = match picked {
            Some(h) => {
                if h.toi < MAX_TOI_MERGE {
                    h
                } else {
                    return None;
                }
            },
            None => {
                return None;
            },
        };
        let center: u64 = match scene.body_for(hit.entity) {
            Some(c) => c,
            None => {
                proof {
                    assert(false);
                }
                0
            },
        };
        let mut v: Vec<u64> = Vec::new();
        v.push(hit.entity);
        let mut j: usize = 0;
        while j < contacts.len()
            invariant
                scene.wf(),
                unique_bodies_s(*scene),
                j <= contacts@.len(),
                v@.len() >= 1,
                v@[0] == hit.entity,
                v@.subrange(1, v@.len() as int) === merge_partners_s(
                    *scene,
                    contacts@.take(j as int),
                    center,
                ),
            decreases contacts@.len() - j,
        {
            let p: ContactPair = contacts[j];
            let target: Option<u64> = if p.a == center {
                Some(p.b)
            } else if p.b == center {
                Some(p.a)
            } else {
                None
            };
            match target {
                Some(t) => {
                    match find_mergeable_owner(scene, t) {
                        Some(e) => {
                            v.push(e);
                        },
                        None => {},
                    }
                },
                None => {},
            }
            j = j + 1;
            proof {
                assert(contacts@.take(j as int).drop_last() =~= contacts@.take(j as int - 1));
                assert(contacts@.take(j as int).last() === contacts@[j as int - 1]);
                assert(v@.subrange(1, v@.len() as int) =~= merge_partners_s(
                    *scene,
                    contacts@.take(j as int),
                    center,
                ));
            }
        }
        proof {
            assert(contacts@.take(contacts@.len() as int) =~= contacts@);
        }
        Some(v)
    }
}

} // verus!
