//! Ray picking: turning the engine's ray-intersection results into the one
//! selected entity.
//!
//! The shape-level time-of-impact queries are the engine's work; each result
//! arrives here as a `RayHit`. Picking reduces the eligible hits to the one
//! with the least time of impact (the first such on ties, as an iterator
//! minimum does), so an object behind another eligible object along the ray
//! is never selected.

use vstd::prelude::*;
use crate::fx::{FX_ONE, POS_LIM};
use crate::vec3::{Vec3, Pose, neg_s, colz_s};
use crate::scene::Scene;

verus! {

/// A ray from the viewpoint: origin and (unnormalized) direction.
#[derive(Clone, Copy, Debug, PartialEq, Eq, Structural)]
pub struct Ray {
    pub origin: Vec3,
    pub direction: Vec3,
}

/// One shape-level intersection as reported by the engine: the entity whose
/// collider was hit, and the time of impact along the ray.
#[derive(Clone, Copy, Debug, PartialEq, Eq, Structural)]
pub struct RayHit {
    pub entity: u64,
    pub toi: i64,
}

/// Which tag restricts the eligible targets of a ray pick.
#[derive(Clone, Copy, Debug, PartialEq, Eq, Structural)]
pub enum TargetTag {
    Grab,
    Merge,
}

/// An entity is an eligible target when it exists, carries the requested
/// tag, and has a registered physics body.
pub open spec fn eligible_s(scene: Scene, e: u64, tag: TargetTag) -> bool {
    &&& scene.has_entity(e)
    &&& scene.entity(e).body is Some
    &&& match tag {
        TargetTag::Grab => scene.entity(e).grabbable is Some,
        TargetTag::Merge => scene.entity(e).mergeable,
    }
}

/// Index `i` holds the pick result: eligible, of minimal time of impact,
/// and first among the eligible minima.
pub open spec fn is_first_min(scene: Scene, hits: Seq<RayHit>, tag: TargetTag, i: int) -> bool {
    &&& 0 <= i < hits.len()
    &&& eligible_s(scene, hits[i].entity, tag)
    &&& forall|j: int|
        0 <= j < hits.len() && eligible_s(scene, (#[trigger] hits[j]).entity, tag) ==> hits[i].toi
            <= hits[j].toi
    &&& forall|j: int|
        0 <= j < i && eligible_s(scene, (#[trigger] hits[j]).entity, tag) ==> hits[i].toi
            < hits[j].toi
}

/// An eligible object strictly behind another eligible object along the
/// ray is never the pick: whatever index holds the pick, its time of
/// impact is least among all eligible hits.
pub proof fn lemma_pick_is_nearest(
    scene: Scene,
    hits: Seq<RayHit>,
    tag: TargetTag,
    i: int,
    j: int,
)
    requires
        is_first_min(scene, hits, tag, i),
        0 <= j < hits.len(),
        eligible_s(scene, hits[j].entity, tag),
    ensures
        hits[i].toi <= hits[j].toi,
{
}

/// The ray a pick follows: from the camera position along the camera's
/// negative local-z axis. The sign is load-bearing: forward is `+z` in
/// camera-local space, and the view looks along the transformed `-z`.
pub fn find_current_ray(camera: &Pose) -> (r: Ray)
    requires
        camera.bounded(POS_LIM as int, FX_ONE as int),
    ensures
        r.origin === camera.translation,
        r.direction@ === neg_s(colz_s(camera.rotation@)),
{
    let fwd: Vec3 = camera.rotation.forward();
    Ray { origin: camera.translation, direction: fwd.neg() }
}

/// Whether the entity is an eligible target under the tag.
pub fn is_eligible(scene: &Scene, e: u64, tag: TargetTag) -> (r: bool)
    requires
        scene.wf(),
    ensures
        r == eligible_s(*scene, e, tag),
{
    let idx: Option<usize> = scene.find_index(e);
    match idx {
        Some(i) => {
            proof {
                let w: int = scene.idx_of(e);
                assert(0 <= w < scene.entries@.len() && scene.entries@[w].id == e);
                assert(w == i as int);
            }
            let has_body: bool = scene.entries[i].body.is_some();
            let tagged: bool = match tag {
                TargetTag::Grab => scene.entries[i].grabbable.is_some(),
                TargetTag::Merge => scene.entries[i].mergeable,
            };
            has_body && tagged
        },
        None => false,
    }
}

/// Reduces the engine's intersection results to the pick: the eligible hit
/// of least time of impact (the first one on ties), or `None` when no
/// eligible collider intersects the ray.
pub fn find_pointed_object(scene: &Scene, hits: &Vec<RayHit>, tag: TargetTag) -> (r: Option<
    RayHit,
>)
    requires
        scene.wf(),
    ensures
        match r {
            Some(hit) => exists|i: int| is_first_min(*scene, hits@, tag, i) && hits@[i] === hit,
            None => forall|j: int|
                0 <= j < hits@.len() ==> !eligible_s(*scene, (#[trigger] hits@[j]).entity, tag),
        },
{
    let mut best: Option<usize> = None;
    let mut k: usize = 0;
    while k < hits.len()
        invariant
            scene.wf(),
            k <= hits@.len(),
            match best {
                Some(bi) => {
                    &&& bi < k
                    &&& eligible_s(*scene, hits@[bi as int].entity, tag)
                    &&& forall|j: int|
                        0 <= j < k && eligible_s(*scene, (#[trigger] hits@[j]).entity, tag)
                            ==> hits@[bi as int].toi <= hits@[j].toi
                    &&& forall|j: int|
                        0 <= j < bi && eligible_s(*scene, (#[trigger] hits@[j]).entity, tag)
                            ==> hits@[bi as int].toi < hits@[j].toi
                },
                None => forall|j: int|
                    0 <= j < k ==> !eligible_s(*scene, (#[trigger] hits@[j]).entity, tag),
            },
        decreases hits@.len() - k,
    {
        if is_eligible(scene, hits[k].entity, tag) {
            let better: bool = match best {
                Some(bi) => hits[k].toi < hits[bi].toi,
                None => true,
            };
            if better {
                best = Some(k);
            }
        }
        k = k + 1;
    }
    match best {
        Some(bi) => {
            proof {
                assert(is_first_min(*scene, hits@, tag, bi as int));
            }
            Some(hits[bi])
        },
        None => None,
    }
}

} // verus!
