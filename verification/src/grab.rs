//! The grab/manipulation state machine.
//!
//! The machine is `Idle` (`selected_object` is `None`) or `Holding` a
//! `SelectedObject`. Grabbing registers a compensating force generator that
//! cancels gravity for the picked body and records the object's forward and
//! up axes relative to the camera; holding converts camera motion into
//! velocity commands on the body; releasing removes the force and restores
//! the default material. The invariant that a `SelectedObject` exists
//! exactly when one live compensating force exists is stated by
//! `holds_invariant` and preserved by every transition.

use vstd::prelude::*;
use crate::fx::{FX_ONE, FX_MUL_LIM, POS_LIM, VEL_LIM};
use crate::vec3::{
    Vec3, Mat3, Pose, V3, M3, plus_s, minus_s, neg_s, scale_by_s, div_by_s, cross_s, apply_s,
    transpose_s, colz_s, coly_s, bounded_s, lemma_rot_apply_bound,
};
use crate::scene::{Scene, EntityRec};
use crate::world::{MyWorld, ConstantAcceleration, ForceGenEntry, RigidBody, clamp3, clamp3_s};
use crate::picking::{RayHit, TargetTag, is_first_min, find_pointed_object};
use crate::components::Grabbable;

verus! {

/// Gain applied to the steering angular velocity (fixed-point 50).
pub const MAGIC_ANGULAR_VELOCITY_MULTIPLIER: i64 = 3276800;

/// Furthest time of impact at which an object can still be grabbed
/// (fixed-point 4).
pub const MAX_TOI_GRAB: i64 = 262144;

/// Bound kept on the recorded relative axes (fixed-point 8).
pub const AXIS_LIM: i64 = 524288;

/// The held-object state; exists exactly while the machine is holding.
#[derive(Clone, Copy, Debug, PartialEq, Eq, Structural)]
pub struct SelectedObject {
    /// The held entity.
    pub entity: u64,
    /// The camera pose seen by the previous hold frame.
    pub previous_camera_position: Pose,
    /// Handle of the compensating force generator.
    pub force: u64,
    /// Time of impact at pick time; the hold keeps the object near this
    /// distance.
    pub distance: i64,
    /// The object's local forward axis expressed relative to the camera at
    /// grab time.
    pub box_forward: Vec3,
    /// The object's local up axis expressed relative to the camera at grab
    /// time.
    pub box_up: Vec3,
}

/// The grab/manipulation state machine.
#[derive(Clone, Copy, Debug, PartialEq, Eq, Structural, Default)]
pub struct MoveSystem {
    pub selected_object: Option<SelectedObject>,
    /// Whether the pick button was down in the previous frame (for edge
    /// detection).
    pub pick_was_down: bool,
}

/// Input snapshot for one frame of the state machine.
#[derive(Clone, Copy, Debug, PartialEq, Eq, Structural)]
pub struct GrabInput {
    /// The pick (left) button is down this frame.
    pub pick_down: bool,
    /// The secondary rotate (right) button is down this frame.
    pub rotate_active: bool,
    /// The re-orientation the pointer motion asks for, already expressed in
    /// the held object's local frame as a rotation matrix.
    pub rotation: Mat3,
}

/// The collider handle an entity's record carries (zero without a body).
pub open spec fn collider_of_s(scene: Scene, e: u64) -> u64 {
    match scene.entity(e).body {
        Some(pb) => pb.0,
        None => 0,
    }
}

/// The held entity's collider and body resolve in scene and world.
pub open spec fn resolvable_s(scene: Scene, world: MyWorld, e: u64) -> bool {
    &&& scene.has_entity(e)
    &&& scene.entity(e).body is Some
    &&& world.has_collider(collider_of_s(scene, e))
    &&& world.has_body(world.collider(collider_of_s(scene, e)).body)
}

/// The rigid body handle behind an entity (under `resolvable_s`).
pub open spec fn body_handle_of_s(scene: Scene, world: MyWorld, e: u64) -> u64 {
    world.collider(collider_of_s(scene, e)).body
}


/// The linear velocity commanded while holding: the camera position delta
/// plus the correction that keeps the object at `distance` as the camera
/// turns, divided by the frame duration (clamped into the machine bounds).
pub open spec fn hold_linear_velocity_s(so: SelectedObject, camera: Pose, dt: int) -> V3 {
    let lin = plus_s(
        minus_s(camera.translation@, so.previous_camera_position.translation@),
        scale_by_s(
            minus_s(
                colz_s(so.previous_camera_position.rotation@),
                colz_s(camera.rotation@),
            ),
            so.distance as int,
        ),
    );
    clamp3_s(div_by_s(clamp3_s(lin, FX_MUL_LIM as int), dt), VEL_LIM as int)
}

/// The angular velocity commanded while holding: the cross products that
/// steer the recorded relative axes back onto the camera's forward and up,
/// scaled by the steering gain (clamped into the machine bounds).
pub open spec fn hold_angular_velocity_s(so: SelectedObject, body_rot: M3, camera: Pose) -> V3 {
    let ang = plus_s(
        cross_s(apply_s(body_rot, so.box_forward@), colz_s(camera.rotation@)),
        cross_s(apply_s(body_rot, so.box_up@), coly_s(camera.rotation@)),
    );
    clamp3_s(
        scale_by_s(
            clamp3_s(ang, FX_MUL_LIM as int),
            MAGIC_ANGULAR_VELOCITY_MULTIPLIER as int,
        ),
        VEL_LIM as int,
    )
}

impl SelectedObject {
    pub open spec fn wf(self) -> bool {
        &&& 0 <= self.distance <= MAX_TOI_GRAB
        &&& self.box_forward.bounded(AXIS_LIM as int)
        &&& self.box_up.bounded(AXIS_LIM as int)
        &&& self.previous_camera_position.bounded(POS_LIM as int, FX_ONE as int)
    }
}

impl MoveSystem {
    /// A machine in the `Idle` state that has not seen the button yet.
    pub fn new() -> (r: MoveSystem)
        ensures
            r.selected_object is None,
            !r.pick_was_down,
    {
        MoveSystem { selected_object: None, pick_was_down: false }
    }

    pub open spec fn wf(self) -> bool {
        match self.selected_object {
            Some(so) => so.wf(),
            None => true,
        }
    }

    /// The force-generator invariant: one live compensating force while
    /// holding, none while idle, and the held state names that force.
    pub open spec fn holds_invariant(self, world: MyWorld) -> bool {
        match self.selected_object {
            Some(so) => {
                &&& world.force_generators@.len() == 1
                &&& world.force_generators@[0].handle == so.force
            },
            None => world.force_generators@.len() == 0,
        }
    }

    /// The number of live compensating forces equals one while holding and
    /// zero while idle: the invariant, spelled out as a count.
    pub proof fn lemma_force_count_matches_state(self, world: MyWorld)
        requires
            self.holds_invariant(world),
        ensures
            world.force_count() == if self.selected_object is Some {
                1int
            } else {
                0int
            },
    {
    }

    /// Attempts the `Idle -> Holding` transition from the engine's ray-hit
    /// results: picks the eligible hit of least time of impact; when it is
    /// within reach and its body resolves, registers the compensating
    /// force (gravity reversed, scoped to that body), records the relative
    /// axes, and swaps the material to the held variant. Anything else
    /// changes nothing.
    pub fn grab_object(
        &mut self,
        scene: &mut Scene,
        world: &mut MyWorld,
        hits: &Vec<RayHit>,
        camera: &Pose,
    )
        requires
            old(self).selected_object is None,
            old(self).holds_invariant(*old(world)),
            old(scene).wf(),
            old(world).wf(),
            old(world).next_force_handle < u64::MAX,
            camera.bounded(POS_LIM as int, FX_ONE as int),
            forall|k: int| 0 <= k < hits@.len() ==> 0 <= (#[trigger] hits@[k]).toi,
        ensures
            final(self).wf(),
            final(self).holds_invariant(*final(world)),
            final(scene).wf(),
            final(world).wf(),
            final(self).pick_was_down == old(self).pick_was_down,
            final(scene).entries@.len() == old(scene).entries@.len(),
            final(scene).next_id == old(scene).next_id,
            forall|k: int|
                0 <= k < old(scene).entries@.len() ==> (#[trigger] final(scene).entries@[k])
                    === (EntityRec {
                    material: final(scene).entries@[k].material,
                    ..old(scene).entries@[k]
                }),
            // The machine grabs exactly when an eligible hit within reach
            // resolves to a live body.
            (exists|i: int|
                is_first_min(*old(scene), hits@, TargetTag::Grab, i) && hits@[i].toi < MAX_TOI_GRAB
                    && resolvable_s(*old(scene), *old(world), hits@[i].entity)) <==> (final(self).selected_object is Some),
            // What was grabbed and what it changed.
            final(self).selected_object is Some ==> exists|i: int|
                {
                    &&& is_first_min(*old(scene), hits@, TargetTag::Grab, i)
                    &&& hits@[i].toi < MAX_TOI_GRAB
                    &&& resolvable_s(*old(scene), *old(world), hits@[i].entity)
                    &&& {
                        let so = final(self).selected_object->0;
                        let bh = body_handle_of_s(*old(scene), *old(world), hits@[i].entity);
                        let rot_inv = transpose_s(old(world).body(bh).pose.rotation@);
                        &&& so.entity == hits@[i].entity
                        &&& so.distance == hits@[i].toi
                        &&& so.previous_camera_position === *camera
                        &&& so.box_forward@ === apply_s(rot_inv, colz_s(camera.rotation@))
                        &&& so.box_up@ === apply_s(rot_inv, coly_s(camera.rotation@))
                        &&& final(world).force_generators@ === old(world).force_generators@.push(
                            ForceGenEntry {
                                handle: so.force,
                                acceleration: final(world).force_generators@[0].acceleration,
                                body: bh,
                            },
                        )
                        &&& final(world).force_generators@[0].acceleration@ === neg_s(
                            old(world).gravity@,
                        )
                        &&& final(world).bodies == old(world).bodies
                        &&& final(world).colliders == old(world).colliders
                        &&& final(world).gravity == old(world).gravity
                        &&& final(world).timestep == old(world).timestep
                        &&& final(scene).entries@.len() == old(scene).entries@.len()
                        &&& final(scene).entries@[old(scene).idx_of(so.entity)] === (EntityRec {
                            material: Some(
                                old(scene).entity(so.entity).grabbable->0.selected_material,
                            ),
                            ..old(scene).entity(so.entity)
                        })
                        &&& forall|k: int|
                            0 <= k < old(scene).entries@.len() && old(scene).entries@[k].id
                                != so.entity ==> final(scene).entries@[k] === old(scene).entries@[k]
                    }
                },
            final(self).selected_object is None ==> *final(world) === *old(world) && *final(scene) === *old(scene) && *final(self) === *old(self),
    {
        let picked: Option<RayHit> = find_pointed_object(scene, hits, TargetTag::Grab);
        let hit: RayHit = match picked {
            Some(h) => {
                if h.toi < MAX_TOI_GRAB {
                    h
                } else {
                    return ;
                }
            },
            None => {
                return ;
            },
        };
        // Resolve the collider and rigid body; a stale handle aborts the
        // grab rather than panicking.
        let ch: u64 = match scene.body_for(hit.entity) {
            Some(c) => c,
            None => {
                return ;
            },
        };
        let bh: u64 = match world.collider_body_handle(ch) {
            Some(b) => b,
            None => {
                return ;
            },
        };
        let body_pose: Pose = match world.body_pose(bh) {
            Some(p) => p,
            None => {
                return ;
            },
        };
        proof {
            assert(resolvable_s(*old(scene), *old(world), hit.entity));
        }
        // The compensating force: gravity, reversed, scoped to this body.
        let g: Vec3 = world.gravity();
        let f: ConstantAcceleration = ConstantAcceleration { acceleration: g.neg(), body: bh };
        let antig: u64 = world.add_force_generator(f);
        // The object's axes relative to the current camera orientation.
        let rot_inv: Mat3 = body_pose.rotation.transpose();
        let cam_fwd: Vec3 = camera.rotation.forward();
        let cam_up: Vec3 = camera.rotation.upward();
        proof {
            lemma_rot_apply_bound(rot_inv@, colz_s(camera.rotation@), FX_ONE as int);
            lemma_rot_apply_bound(rot_inv@, coly_s(camera.rotation@), FX_ONE as int);
        }
        let box_forward: Vec3 = rot_inv.apply(cam_fwd);
        let box_up: Vec3 = rot_inv.apply(cam_up);
        // Swap to the held material.
        let idx: Option<usize> = scene.find_index(hit.entity);
        match idx {
            Some(i) => {
                proof {
                    let w: int = scene.idx_of(hit.entity);
                    assert(0 <= w < scene.entries@.len() && scene.entries@[w].id == hit.entity);
                    assert(w == i as int);
                }
                let grabbable: Grabbable = match scene.entries[i].grabbable {
                    Some(gr) => gr,
                    None => {
                        proof {
                            assert(false);
                        }
                        Grabbable { default_material: 0, selected_material: 0 }
                    },
                };
                scene.set_material(hit.entity, grabbable.selected_material);
            },
            None => {
                proof {
                    assert(false);
                }
            },
        }
        self.selected_object = Some(
            SelectedObject {
                entity: hit.entity,
                previous_camera_position: *camera,
                force: antig,
                distance: hit.toi,
                box_forward,
                box_up,
            },
        );
    }

    /// Removes the held state together with its compensating force; the
    /// world changes in nothing else.
    fn clear_held(&mut self, world: &mut MyWorld)
        requires
            old(self).selected_object is Some,
            old(self).holds_invariant(*old(world)),
            old(world).wf(),
        ensures
            final(self).selected_object is None,
            final(self).pick_was_down == old(self).pick_was_down,
            final(world).wf(),
            final(world).force_generators@.len() == 0,
            *final(world) === (MyWorld {
                force_generators: final(world).force_generators,
                ..*old(world)
            }),
    {
        match self.selected_object {
            Some(so) => {
                proof {
                    assert(old(world).force_generators@[0].handle == so.force);
                }
                world.remove_force_generator(so.force);
            },
            None => {},
        }
        self.selected_object = None;
    }

    /// One `Holding -> Holding` move frame: converts the camera delta into a
    /// linear velocity command and the axis mismatch into an angular
    /// velocity command on the held body, then records the camera pose for
    /// the next frame. A body that no longer resolves clears the held state
    /// (removing its force) instead of panicking.
    pub fn move_selected_object(
        &mut self,
        scene: &Scene,
        world: &mut MyWorld,
        camera: &Pose,
        delta_seconds: i64,
    )
        requires
            old(self).selected_object is Some,
            old(self).wf(),
            old(self).holds_invariant(*old(world)),
            scene.wf(),
            old(world).wf(),
            camera.bounded(POS_LIM as int, FX_ONE as int),
            0 < delta_seconds <= FX_MUL_LIM,
        ensures
            final(self).wf(),
            final(self).holds_invariant(*final(world)),
            final(world).wf(),
            final(self).pick_was_down == old(self).pick_was_down,
            resolvable_s(*scene, *old(world), old(self).selected_object->0.entity) ==> {
                let so = old(self).selected_object->0;
                let bh = body_handle_of_s(*scene, *old(world), so.entity);
                let idx = old(world).body_idx(bh);
                &&& final(self).selected_object === Some(
                    SelectedObject { previous_camera_position: *camera, ..so },
                )
                &&& final(world).bodies@.len() == old(world).bodies@.len()
                &&& forall|k: int|
                    0 <= k < old(world).bodies@.len() && k != idx ==> final(world).bodies@[k]
                        === old(world).bodies@[k]
                &&& final(world).bodies@[idx] === (RigidBody {
                    linvel: final(world).bodies@[idx].linvel,
                    angvel: final(world).bodies@[idx].angvel,
                    ..old(world).body(bh)
                })
                &&& final(world).bodies@[idx].linvel@ === hold_linear_velocity_s(
                    so,
                    *camera,
                    delta_seconds as int,
                )
                &&& final(world).bodies@[idx].angvel@ === hold_angular_velocity_s(
                    so,
                    old(world).body(bh).pose.rotation@,
                    *camera,
                )
                &&& final(world).colliders == old(world).colliders
                &&& final(world).force_generators == old(world).force_generators
                &&& final(world).gravity == old(world).gravity
                &&& final(world).timestep == old(world).timestep
            },
            !resolvable_s(*scene, *old(world), old(self).selected_object->0.entity) ==> {
                &&& final(self).selected_object is None
                &&& final(world).force_generators@.len() == 0
                &&& *final(world) === (MyWorld {
                    force_generators: final(world).force_generators,
                    ..*old(world)
                })
            },
    {
        let so: SelectedObject = match self.selected_object {
            Some(s) => s,
            None => {
                proof {
                    assert(false);
                }
                return ;
            },
        };
        let ch: u64 = match scene.body_for(so.entity) {
            Some(c) => c,
            None => {
                self.clear_held(world);
                return ;
            },
        };
        let bh: u64 = match world.collider_body_handle(ch) {
            Some(b) => b,
            None => {
                self.clear_held(world);
                return ;
            },
        };
        let body_pose: Pose = match world.body_pose(bh) {
            Some(p) => p,
            None => {
                self.clear_held(world);
                return ;
            },
        };
        proof {
            assert(resolvable_s(*scene, *old(world), so.entity));
            assert(bh == body_handle_of_s(*scene, *old(world), so.entity));
        }
        let ghost idx: int = world.body_idx(bh);
        // Linear command: camera position delta plus the constant-distance
        // correction, divided by the frame duration.
        let cam_fwd: Vec3 = camera.rotation.forward();
        let prev_fwd: Vec3 = so.previous_camera_position.rotation.forward();
        let dpos: Vec3 = camera.translation.minus(so.previous_camera_position.translation);
        let corr: Vec3 = prev_fwd.minus(cam_fwd).scale_by(so.distance);
        let linear: Vec3 = dpos.plus(corr);
        let lin_c: Vec3 = clamp3(linear, FX_MUL_LIM);
        let vel: Vec3 = clamp3(lin_c.div_by(delta_seconds), VEL_LIM);
        // Angular command: steer the recorded axes onto the camera's.
        let cam_up: Vec3 = camera.rotation.upward();
        let body_rot: Mat3 = body_pose.rotation;
        proof {
            lemma_rot_apply_bound(body_rot@, so.box_forward@, AXIS_LIM as int);
            lemma_rot_apply_bound(body_rot@, so.box_up@, AXIS_LIM as int);
        }
        let steered_fwd: Vec3 = body_rot.apply(so.box_forward);
        let steered_up: Vec3 = body_rot.apply(so.box_up);
        let ang: Vec3 = steered_fwd.cross(cam_fwd).plus(steered_up.cross(cam_up));
        let ang_c: Vec3 = clamp3(ang, FX_MUL_LIM);
        let angvel: Vec3 = clamp3(ang_c.scale_by(MAGIC_ANGULAR_VELOCITY_MULTIPLIER), VEL_LIM);
        world.set_linear_velocity(bh, vel);
        proof {
            assert(world.bodies@[idx].handle == bh);
            let idx2: int = world.body_idx(bh);
            assert(0 <= idx2 < world.bodies@.len() && world.bodies@[idx2].handle == bh);
            if idx2 < idx {
                assert(world.bodies@[idx2].handle != world.bodies@[idx].handle);
                assert(false);
            } else if idx < idx2 {
                assert(world.bodies@[idx].handle != world.bodies@[idx2].handle);
                assert(false);
            }
        }
        world.set_angular_velocity(bh, angvel);
        self.selected_object = Some(SelectedObject { previous_camera_position: *camera, ..so });
    }

    /// One `Holding -> Holding` re-orientation: composes the requested
    /// rotation (already expressed in the held object's local frame) onto
    /// the recorded relative axes. The held entity, its pick distance, its
    /// force, and the remembered camera pose never change; while idle this
    /// is a no-op.
    pub fn rotate_selected_object(&mut self, q: &Mat3)
        requires
            old(self).wf(),
            q.bounded(FX_ONE as int),
        ensures
            final(self).wf(),
            final(self).pick_was_down == old(self).pick_was_down,
            old(self).selected_object is None ==> *final(self) === *old(self),
            old(self).selected_object is Some ==> {
                let so = old(self).selected_object->0;
                &&& final(self).selected_object is Some
                &&& final(self).selected_object->0 === (SelectedObject {
                    box_forward: final(self).selected_object->0.box_forward,
                    box_up: final(self).selected_object->0.box_up,
                    ..so
                })
                &&& final(self).selected_object->0.entity == so.entity
                &&& final(self).selected_object->0.distance == so.distance
                &&& final(self).selected_object->0.force == so.force
                &&& final(self).selected_object->0.box_forward@ === clamp3_s(
                    apply_s(q@, so.box_forward@),
                    AXIS_LIM as int,
                )
                &&& final(self).selected_object->0.box_up@ === clamp3_s(
                    apply_s(q@, so.box_up@),
                    AXIS_LIM as int,
                )
            },
    {
        match self.selected_object {
            Some(so) => {
                proof {
                    lemma_rot_apply_bound(q@, so.box_forward@, AXIS_LIM as int);
                    lemma_rot_apply_bound(q@, so.box_up@, AXIS_LIM as int);
                }
                let box_forward: Vec3 = clamp3(q.apply(so.box_forward), AXIS_LIM);
                let box_up: Vec3 = clamp3(q.apply(so.box_up), AXIS_LIM);
                self.selected_object = Some(SelectedObject { box_forward, box_up, ..so });
            },
            None => {},
        }
    }

    /// The `Holding -> Idle` transition: removes the compensating force and
    /// restores the default material. Releasing while idle is a no-op: no
    /// force removal is attempted and nothing changes.
    pub fn drop_object(&mut self, scene: &mut Scene, world: &mut MyWorld)
        requires
            old(self).holds_invariant(*old(world)),
            old(scene).wf(),
            old(world).wf(),
        ensures
            final(self).selected_object is None,
            final(self).pick_was_down == old(self).pick_was_down,
            final(self).holds_invariant(*final(world)),
            final(scene).wf(),
            final(world).wf(),
            final(world).force_generators@.len() == 0,
            final(scene).entries@.len() == old(scene).entries@.len(),
            final(scene).next_id == old(scene).next_id,
            forall|k: int|
                0 <= k < old(scene).entries@.len() ==> (#[trigger] final(scene).entries@[k])
                    === (EntityRec {
                    material: final(scene).entries@[k].material,
                    ..old(scene).entries@[k]
                }),
            old(self).selected_object is None ==> *final(world) === *old(world) && *final(scene)
                === *old(scene),
            old(self).selected_object is Some ==> *final(world) === (MyWorld {
                force_generators: final(world).force_generators,
                ..*old(world)
            }),
            old(self).selected_object is Some ==> {
                let so = old(self).selected_object->0;
                if old(scene).has_entity(so.entity) && old(scene).entity(so.entity).grabbable
                    is Some {
                    &&& final(scene).entries@.len() == old(scene).entries@.len()
                    &&& final(scene).entries@[old(scene).idx_of(so.entity)] === (EntityRec {
                        material: Some(
                            old(scene).entity(so.entity).grabbable->0.default_material,
                        ),
                        ..old(scene).entity(so.entity)
                    })
                    &&& forall|k: int|
                        0 <= k < old(scene).entries@.len() && old(scene).entries@[k].id
                            != so.entity ==> final(scene).entries@[k] === old(scene).entries@[k]
                } else {
                    *final(scene) === *old(scene)
                }
            },
    {
        match self.selected_object {
            Some(so) => {
                proof {
                    assert(old(world).force_generators@[0].handle == so.force);
                }
                world.remove_force_generator(so.force);
                let idx: Option<usize> = scene.find_index(so.entity);
                match idx {
                    Some(i) => {
                        proof {
                            let w: int = scene.idx_of(so.entity);
                            assert(0 <= w < scene.entries@.len() && scene.entries@[w].id
                                == so.entity);
                            assert(w == i as int);
                        }
                        match scene.entries[i].grabbable {
                            Some(g) => {
                                scene.set_material(so.entity, g.default_material);
                            },
                            None => {},
                        }
                    },
                    None => {},
                }
                self.selected_object = None;
            },
            None => {},
        }
    }

    /// One frame of the state machine, in the order the frame demands:
    /// re-orientation first (a no-op unless holding and the rotate input is
    /// active), then the pick-button logic. A press edge while idle
    /// attempts a grab; the button held while holding moves the object; the
    /// button up while holding releases it; the button up while idle does
    /// nothing at all.
    pub fn run(
        &mut self,
        scene: &mut Scene,
        world: &mut MyWorld,
        input: &GrabInput,
        hits: &Vec<RayHit>,
        camera: &Pose,
        delta_seconds: i64,
    )
        requires
            old(self).wf(),
            old(self).holds_invariant(*old(world)),
            old(scene).wf(),
            old(world).wf(),
            old(world).next_force_handle < u64::MAX,
            camera.bounded(POS_LIM as int, FX_ONE as int),
            input.rotation.bounded(FX_ONE as int),
            forall|k: int| 0 <= k < hits@.len() ==> 0 <= (#[trigger] hits@[k]).toi,
            0 < delta_seconds <= FX_MUL_LIM,
        ensures
            final(self).wf(),
            final(self).holds_invariant(*final(world)),
            final(scene).wf(),
            final(world).wf(),
            final(self).pick_was_down == input.pick_down,
            final(scene).entries@.len() == old(scene).entries@.len(),
            final(scene).next_id == old(scene).next_id,
            forall|k: int|
                0 <= k < old(scene).entries@.len() ==> (#[trigger] final(scene).entries@[k])
                    === (EntityRec {
                    material: final(scene).entries@[k].material,
                    ..old(scene).entries@[k]
                }),
            // Whatever the transition, the world keeps its population:
            // only velocities and the force generators can change.
            final(world).bodies@.len() == old(world).bodies@.len(),
            forall|k: int|
                0 <= k < old(world).bodies@.len() ==> (#[trigger] final(world).bodies@[k])
                    === (RigidBody {
                    linvel: final(world).bodies@[k].linvel,
                    angvel: final(world).bodies@[k].angvel,
                    ..old(world).bodies@[k]
                }),
            final(world).colliders == old(world).colliders,
            final(world).gravity == old(world).gravity,
            final(world).timestep == old(world).timestep,
            // Releasing (or resting) while not holding is a no-op.
            old(self).selected_object is None && !input.pick_down ==> *final(world) === *old(world) && *final(scene) === *old(scene) && final(self).selected_object is None,
            // No press edge, no pick.
            old(self).selected_object is None && input.pick_down && old(self).pick_was_down
                ==> *final(world) === *old(world) && *final(scene) === *old(scene) && final(self).selected_object is None,
            // A press edge while idle grabs exactly when an eligible hit
            // within reach resolves.
            old(self).selected_object is None && input.pick_down && !old(self).pick_was_down
                ==> ((exists|i: int|
                is_first_min(*old(scene), hits@, TargetTag::Grab, i) && hits@[i].toi
                    < MAX_TOI_GRAB && resolvable_s(*old(scene), *old(world), hits@[i].entity))
                <==> (final(self).selected_object is Some)),
            // Releasing while holding always returns to idle with no force
            // left.
            old(self).selected_object is Some && !input.pick_down ==> final(self).selected_object is None && final(world).force_generators@.len() == 0,
            // Holding with the button down keeps holding the same object at
            // the same distance with the same force, as long as the body
            // still resolves; a stale body clears the state.
            old(self).selected_object is Some && input.pick_down && resolvable_s(
                *old(scene),
                *old(world),
                old(self).selected_object->0.entity,
            ) ==> {
                let so = old(self).selected_object->0;
                &&& final(self).selected_object is Some
                &&& final(self).selected_object->0.entity == so.entity
                &&& final(self).selected_object->0.force == so.force
                &&& final(self).selected_object->0.distance == so.distance
                &&& final(self).selected_object->0.previous_camera_position === *camera
            },
            old(self).selected_object is Some && input.pick_down && !resolvable_s(
                *old(scene),
                *old(world),
                old(self).selected_object->0.entity,
            ) ==> final(self).selected_object is None && final(world).force_generators@.len() == 0,
            // The relative axes change exactly when the rotate input is
            // active, by composing the requested rotation in the object's
            // local frame; otherwise they are untouched.
            old(self).selected_object is Some && input.pick_down && resolvable_s(
                *old(scene),
                *old(world),
                old(self).selected_object->0.entity,
            ) && !input.rotate_active ==> {
                let so = old(self).selected_object->0;
                &&& final(self).selected_object->0.box_forward === so.box_forward
                &&& final(self).selected_object->0.box_up === so.box_up
            },
            old(self).selected_object is Some && input.pick_down && resolvable_s(
                *old(scene),
                *old(world),
                old(self).selected_object->0.entity,
            ) && input.rotate_active ==> {
                let so = old(self).selected_object->0;
                &&& final(self).selected_object->0.box_forward@ === clamp3_s(
                    apply_s(input.rotation@, so.box_forward@),
                    AXIS_LIM as int,
                )
                &&& final(self).selected_object->0.box_up@ === clamp3_s(
                    apply_s(input.rotation@, so.box_up@),
                    AXIS_LIM as int,
                )
            },
    {
        if input.rotate_active {
            self.rotate_selected_object(&input.rotation);
        }
        let holding: bool = self.selected_object.is_some();
        if holding {
            if input.pick_down {
                self.move_selected_object(scene, world, camera, delta_seconds);
            } else {
                self.drop_object(scene, world);
            }
        } else {
            if input.pick_down && !self.pick_was_down {
                self.grab_object(scene, world, hits, camera);
            }
        }
        self.pick_was_down = input.pick_down;
    }
}

} // verus!
