//! Creating physics bodies for freshly loaded meshes.
//!
//! The engine turns a loaded mesh into a convex collision shape; what
//! reaches this system is the entity and the shape's vertical half-extent.
//! Each entity still marked `Loading` and without a body gets a dynamic
//! rigid body at its current transform and a collider, and the mark is
//! cleared.

use vstd::prelude::*;
use crate::scene::{Scene, EntityRec};
use crate::world::{MyWorld, RigidBody, Collider, HALF_LIM, lemma_collider_lookup_prefix, lemma_body_lookup_prefix};
use crate::components::PhysicsBody;
use crate::vec3::{Vec3, Pose};

verus! {

/// A mesh the loader finished: the entity it belongs to and the vertical
/// half-extent of the collision shape built from it.
#[derive(Clone, Copy, Debug, PartialEq, Eq, Structural)]
pub struct LoadedMesh {
    pub entity: u64,
    pub half_height: i64,
}

/// The loading system; it holds no state between frames.
#[derive(Clone, Copy, Debug, PartialEq, Eq, Structural, Default)]
pub struct LoadedSystem;

/// The record waits for a body: still loading and without one.
pub open spec fn awaiting_body_s(e: EntityRec) -> bool {
    e.loading && e.body is None
}

/// Some mesh among the first `upto` names this entity.
pub open spec fn mesh_named_s(meshes: Seq<LoadedMesh>, upto: int, id: u64) -> bool {
    exists|m: int| 0 <= m < upto && meshes[m].entity == id
}

/// The record received its physics body: no longer loading, and its
/// collider resolves to a dynamic body standing at pose `t`.
pub open spec fn got_body_s(e: EntityRec, w: MyWorld, t: Pose) -> bool {
    &&& !e.loading
    &&& match e.body {
        Some(pb) => {
            &&& w.has_collider(pb.0)
            &&& w.has_body(w.collider(pb.0).body)
            &&& w.body(w.collider(pb.0).body).dynamic
            &&& w.body(w.collider(pb.0).body).pose === t
        },
        None => false,
    }
}

impl LoadedSystem {
    /// Gives one waiting entity its rigid body (at the entity's current
    /// transform, dynamic) and collider, and clears the loading mark.
    /// Reports whether anything was created; an entity that is missing,
    /// already loaded, or already physical is left alone.
    pub fn create_mesh(
        &self,
        scene: &mut Scene,
        world: &mut MyWorld,
        entity: u64,
        half_height: i64,
    ) -> (r: bool)
        requires
            old(scene).wf(),
            old(world).wf(),
            0 <= half_height <= HALF_LIM,
            old(world).next_body_handle < u64::MAX,
            old(world).next_collider_handle < u64::MAX,
        ensures
            final(scene).wf(),
            final(world).wf(),
            r == (old(scene).has_entity(entity) && awaiting_body_s(old(scene).entity(entity))),
            !r ==> *final(scene) === *old(scene) && *final(world) === *old(world),
            r ==> {
                let ch = old(world).next_collider_handle;
                let bh = old(world).next_body_handle;
                &&& final(world).bodies@ === old(world).bodies@.push(
                    RigidBody {
                        handle: bh,
                        pose: old(scene).entity(entity).transform,
                        linvel: Vec3 { x: 0, y: 0, z: 0 },
                        angvel: Vec3 { x: 0, y: 0, z: 0 },
                        dynamic: true,
                    },
                )
                &&& final(world).colliders@ === old(world).colliders@.push(
                    Collider { handle: ch, body: bh, half_height },
                )
                &&& final(world).force_generators == old(world).force_generators
                &&& final(world).gravity == old(world).gravity
                &&& final(world).timestep == old(world).timestep
                &&& final(world).next_body_handle == bh + 1
                &&& final(world).next_collider_handle == ch + 1
                &&& final(world).next_force_handle == old(world).next_force_handle
                &&& final(scene).entries@.len() == old(scene).entries@.len()
                &&& final(scene).next_id == old(scene).next_id
                &&& forall|k: int|
                    0 <= k < old(scene).entries@.len() && old(scene).entries@[k].id != entity
                        ==> final(scene).entries@[k] === old(scene).entries@[k]
                &&& final(scene).entries@[old(scene).idx_of(entity)] === (EntityRec {
                    loading: false,
                    body: Some(PhysicsBody(ch)),
                    ..old(scene).entity(entity)
                })
            },
    {
        let idx: Option<usize> = scene.find_index(entity);
        let i: usize = match idx {
            Some(i) => i,
            None => {
                return false;
            },
        };
        proof {
            let w: int = scene.idx_of(entity);
            assert(0 <= w < scene.entries@.len() && scene.entries@[w].id == entity);
            assert(w == i as int);
        }
        let e: EntityRec = scene.entries[i];
        if !e.loading || e.body.is_some() {
            return false;
        }
        let bh: u64 = world.add_rigid_body(e.transform, true);
        let ch: u64 = world.add_collider(bh, half_height);
        let updated: EntityRec = EntityRec {
            loading: false,
            body: Some(PhysicsBody(ch)),
            ..e
        };
        scene.entries.set(i, updated);
        true
    }

    /// One loading frame: each finished mesh whose entity still waits for
    /// a body gets one. The scene keeps its records (only `loading` and
    /// `body` fields change), the world keeps everything it had, and no
    /// force generator, gravity or timestep is touched.
    pub fn run(&self, scene: &mut Scene, world: &mut MyWorld, meshes: &Vec<LoadedMesh>)
        requires
            old(scene).wf(),
            old(world).wf(),
            forall|m: int|
                0 <= m < meshes@.len() ==> 0 <= (#[trigger] meshes@[m]).half_height <= HALF_LIM,
            old(world).next_body_handle + meshes@.len() < u64::MAX,
            old(world).next_collider_handle + meshes@.len() < u64::MAX,
        ensures
            final(scene).wf(),
            final(world).wf(),
            final(scene).entries@.len() == old(scene).entries@.len(),
            final(scene).next_id == old(scene).next_id,
            // Records not named by any mesh are untouched.
            forall|k: int|
                0 <= k < old(scene).entries@.len() && (forall|m: int|
                    0 <= m < meshes@.len() ==> (#[trigger] meshes@[m]).entity != old(
                        scene,
                    ).entries@[k].id) ==> final(scene).entries@[k] === old(scene).entries@[k],
            // Existing bodies, colliders and forces survive; nothing else
            // of the world changes.
            old(world).bodies@.is_prefix_of(final(world).bodies@),
            old(world).colliders@.is_prefix_of(final(world).colliders@),
            final(world).force_generators == old(world).force_generators,
            final(world).gravity == old(world).gravity,
            final(world).timestep == old(world).timestep,
            // Every record keeps its identity and components; only its
            // loading mark and body handle can differ, and a body is never
            // taken away.
            forall|k: int|
                0 <= k < old(scene).entries@.len() ==> {
                    &&& (#[trigger] final(scene).entries@[k]) === (EntityRec {
                        loading: final(scene).entries@[k].loading,
                        body: final(scene).entries@[k].body,
                        ..old(scene).entries@[k]
                    })
                    &&& (old(scene).entries@[k].body is Some ==> final(scene).entries@[k].body
                        === old(scene).entries@[k].body)
                    &&& (!old(scene).entries@[k].loading ==> !final(scene).entries@[k].loading)
                },
            // Completeness: every waiting record named by a finished mesh
            // received its body, at the record's transform, and stopped
            // loading.
            forall|k: int|
                0 <= k < old(scene).entries@.len() && awaiting_body_s(
                    #[trigger] old(scene).entries@[k],
                ) && mesh_named_s(meshes@, meshes@.len() as int, old(scene).entries@[k].id)
                    ==> got_body_s(
                    final(scene).entries@[k],
                    *final(world),
                    old(scene).entries@[k].transform,
                ),
    {
        let mut j: usize = 0;
        while j < meshes.len()
            invariant
                scene.wf(),
                world.wf(),
                j <= meshes@.len(),
                forall|m: int|
                    0 <= m < meshes@.len() ==> 0 <= (#[trigger] meshes@[m]).half_height
                        <= HALF_LIM,
                world.next_body_handle + (meshes@.len() - j) < u64::MAX,
                world.next_collider_handle + (meshes@.len() - j) < u64::MAX,
                scene.entries@.len() == old(scene).entries@.len(),
                scene.next_id == old(scene).next_id,
                forall|k: int|
                    0 <= k < old(scene).entries@.len() && (forall|m: int|
                        0 <= m < j ==> (#[trigger] meshes@[m]).entity != old(
                            scene,
                        ).entries@[k].id) ==> scene.entries@[k] === old(scene).entries@[k],
                old(world).bodies@.is_prefix_of(world.bodies@),
                old(world).colliders@.is_prefix_of(world.colliders@),
                world.force_generators == old(world).force_generators,
                world.gravity == old(world).gravity,
                world.timestep == old(world).timestep,
                forall|k: int|
                    0 <= k < old(scene).entries@.len() ==> {
                        &&& (#[trigger] scene.entries@[k]) === (EntityRec {
                            loading: scene.entries@[k].loading,
                            body: scene.entries@[k].body,
                            ..old(scene).entries@[k]
                        })
                        &&& (old(scene).entries@[k].body is Some ==> scene.entries@[k].body
                            === old(scene).entries@[k].body)
                        &&& (!old(scene).entries@[k].loading ==> !scene.entries@[k].loading)
                    },
                forall|k: int|
                    0 <= k < old(scene).entries@.len() && awaiting_body_s(
                        #[trigger] old(scene).entries@[k],
                    ) && mesh_named_s(meshes@, j as int, old(scene).entries@[k].id)
                        ==> got_body_s(
                        scene.entries@[k],
                        *world,
                        old(scene).entries@[k].transform,
                    ),
            decreases meshes@.len() - j,
        {
            let m: LoadedMesh = meshes[j];
            let ghost sp = *scene;
            let ghost wp = *world;
            let created: bool = self.create_mesh(scene, world, m.entity, m.half_height);
            proof {
                assert forall|k: int|
                    0 <= k < old(scene).entries@.len() && awaiting_body_s(
                        #[trigger] old(scene).entries@[k],
                    ) && mesh_named_s(meshes@, j as int + 1, old(scene).entries@[k].id) implies
                    got_body_s(
                    scene.entries@[k],
                    *world,
                    old(scene).entries@[k].transform,
                ) by {
                    let id = old(scene).entries@[k].id;
                    if mesh_named_s(meshes@, j as int, id) {
                        // Already handled by an earlier mesh; the call can
                        // only append to the world, and this record was not
                        // waiting any more, so it was left alone.
                        assert(got_body_s(sp.entries@[k], wp, old(scene).entries@[k].transform));
                        if created && sp.entries@[k].id == m.entity {
                            let w: int = sp.idx_of(m.entity);
                            assert(0 <= w < sp.entries@.len() && sp.entries@[w].id == m.entity);
                            if w < k {
                                assert(sp.entries@[w].id != sp.entries@[k].id);
                                assert(false);
                            } else if k < w {
                                assert(sp.entries@[k].id != sp.entries@[w].id);
                                assert(false);
                            }
                            assert(false);
                        }
                        assert(scene.entries@[k] === sp.entries@[k]);
                        match sp.entries@[k].body {
                            Some(pb) => {
                                lemma_collider_lookup_prefix(wp, *world, pb.0);
                                lemma_body_lookup_prefix(wp, *world, wp.collider(pb.0).body);
                            },
                            None => {},
                        }
                    } else {
                        // The witness is this very mesh: the record was
                        // untouched until now, so the call created its
                        // body.
                        assert(meshes@[j as int].entity == id);
                        assert(sp.entries@[k] === old(scene).entries@[k]);
                        let w: int = sp.idx_of(id);
                        assert(0 <= w < sp.entries@.len() && sp.entries@[w].id == id);
                        if w < k {
                            assert(sp.entries@[w].id != sp.entries@[k].id);
                            assert(false);
                        } else if k < w {
                            assert(sp.entries@[k].id != sp.entries@[w].id);
                            assert(false);
                        }
                        assert(created);
                        let ch = wp.next_collider_handle;
                        let bh = wp.next_body_handle;
                        let nc: int = world.colliders@.len() - 1;
                        let nb: int = world.bodies@.len() - 1;
                        assert(world.colliders@[nc].handle == ch);
                        assert(world.has_collider(ch));
                        let wc: int = world.collider_idx(ch);
                        assert(0 <= wc < world.colliders@.len() && world.colliders@[wc].handle
                            == ch);
                        if wc < nc {
                            assert(world.colliders@[wc].handle != world.colliders@[nc].handle);
                            assert(false);
                        } else if nc < wc {
                            assert(world.colliders@[nc].handle != world.colliders@[wc].handle);
                            assert(false);
                        }
                        assert(world.bodies@[nb].handle == bh);
                        assert(world.has_body(bh));
                        let wb: int = world.body_idx(bh);
                        assert(0 <= wb < world.bodies@.len() && world.bodies@[wb].handle == bh);
                        if wb < nb {
                            assert(world.bodies@[wb].handle != world.bodies@[nb].handle);
                            assert(false);
                        } else if nb < wb {
                            assert(world.bodies@[nb].handle != world.bodies@[wb].handle);
                            assert(false);
                        }
                    }
                }
            }
            j = j + 1;
        }
    }
}

} // verus!
