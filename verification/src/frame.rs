//! One simulated frame, in the order the design fixes: ray pick and
//! manipulation (at most one pick per button press edge), then
//! self-locomotion, then the bounded fixed-step physics advance with pose
//! write-back, then the camera following the self body. Velocity commands
//! therefore always land on the bodies strictly before the steps that
//! consume them, and the write-back strictly after.

use vstd::prelude::*;
use crate::fx::{FX_ONE, POS_LIM, clamp_s};
use crate::vec3::{Pose, V3, apply_s};
use crate::scene::{Scene, EntityRec};
use crate::world::{MyWorld, clamp3_s, lemma_body_lookup_stable};
use crate::picking::{RayHit, TargetTag, is_first_min};
use crate::grab::{MoveSystem, GrabInput, resolvable_s, MAX_TOI_GRAB, AXIS_LIM};
use crate::locomotion::{
    TranslationSystem, LocomotionInput, follow_self, one_self_s, one_camera_s, has_camera_s,
    camera_idx_s, walk_velocity_s, self_resolves_s, self_body_handle_s, self_collider_s,
    lemma_self_camera_stable,
};
use crate::stepper::{
    PhysicsSystem, MAX_STEPS_PER_RUN, ACCUM_MAX, steps_taken_s, rec_resolves_s, rec_body_pose_s,
};

verus! {

/// The camera entity's pose, if a camera exists.
pub fn camera_pose(scene: &Scene) -> (r: Option<Pose>)
    requires
        scene.wf(),
        one_camera_s(*scene),
    ensures
        match r {
            Some(p) => has_camera_s(*scene) && p === scene.entries@[camera_idx_s(
                *scene,
            )].transform,
            None => !has_camera_s(*scene),
        },
{
    let mut i: usize = 0;
    while i < scene.entries.len()
        invariant
            scene.wf(),
            one_camera_s(*scene),
            i <= scene.entries@.len(),
            forall|j: int| 0 <= j < i ==> !scene.entries@[j].camera,
        decreases scene.entries@.len() - i,
    {
        if scene.entries[i].camera {
            proof {
                assert(has_camera_s(*scene));
                let ci: int = camera_idx_s(*scene);
                assert(0 <= ci < scene.entries@.len() && scene.entries@[ci].camera);
                if ci < i as int {
                    assert(false);
                } else if (i as int) < ci {
                    assert(!(scene.entries@[i as int].camera && scene.entries@[ci].camera));
                    assert(false);
                }
            }
            return Some(scene.entries[i].transform);
        }
        i = i + 1;
    }
    None
}

/// One frame of the whole core, in order: manipulation (at most one pick
/// per press edge), locomotion, the bounded fixed-step advance with pose
/// write-back, and the camera following the self body. Returns how many
/// physics steps ran (never more than the catch-up cap). The
/// force-generator invariant survives every frame.
pub fn frame(
    move_system: &mut MoveSystem,
    translation_system: &TranslationSystem,
    physics_system: &mut PhysicsSystem,
    scene: &mut Scene,
    world: &mut MyWorld,
    grab_input: &GrabInput,
    locomotion_input: &LocomotionInput,
    hits: &Vec<RayHit>,
    delta_seconds: i64,
) -> (steps: u64)
    requires
        old(move_system).wf(),
        old(move_system).holds_invariant(*old(world)),
        translation_system.wf(),
        old(physics_system).wf(),
        old(scene).wf(),
        old(world).wf(),
        one_self_s(*old(scene)),
        one_camera_s(*old(scene)),
        has_camera_s(*old(scene)),
        old(world).next_force_handle < u64::MAX,
        grab_input.rotation.bounded(FX_ONE as int),
        forall|k: int| 0 <= k < hits@.len() ==> 0 <= (#[trigger] hits@[k]).toi,
        -FX_ONE <= locomotion_input.move_x <= FX_ONE,
        -FX_ONE <= locomotion_input.move_z <= FX_ONE,
        0 < delta_seconds <= ACCUM_MAX,
    ensures
        final(move_system).wf(),
        final(move_system).holds_invariant(*final(world)),
        final(physics_system).wf(),
        final(scene).wf(),
        final(world).wf(),
        steps <= MAX_STEPS_PER_RUN,
        final(move_system).pick_was_down == grab_input.pick_down,
        // The step cadence: the backlog (saturated at its cap) advances by
        // whole timesteps, at most the catch-up cap of them, and the
        // remainder is retained for the next frame.
        ({
            let acc0 = if old(physics_system).time_accumulator + delta_seconds > ACCUM_MAX {
                ACCUM_MAX as int
            } else {
                old(physics_system).time_accumulator + delta_seconds
            };
            &&& steps == steps_taken_s(acc0, old(world).timestep as int)
            &&& final(physics_system).time_accumulator == acc0 - steps * old(world).timestep
        }),
        // Resting idle: the force generators stay exactly as they were.
        old(move_system).selected_object is None && !grab_input.pick_down ==> final(move_system).selected_object is None && final(world).force_generators@ === old(world).force_generators@,
        // A press edge while idle grabs exactly when an eligible hit
        // within reach resolves to a live body.
        old(move_system).selected_object is None && grab_input.pick_down && !old(move_system).pick_was_down ==> ((exists|i: int|
            is_first_min(*old(scene), hits@, TargetTag::Grab, i) && hits@[i].toi < MAX_TOI_GRAB
                && resolvable_s(*old(scene), *old(world), hits@[i].entity)) <==> (final(move_system).selected_object is Some)),
        // Releasing: back to idle with no compensating force left.
        old(move_system).selected_object is Some && !grab_input.pick_down ==> final(move_system).selected_object is None && final(world).force_generators@.len() == 0,
        // Holding on: the same object, at the same distance, under the
        // same force, as long as its body still resolves.
        old(move_system).selected_object is Some && grab_input.pick_down && resolvable_s(
            *old(scene),
            *old(world),
            old(move_system).selected_object->0.entity,
        ) ==> {
            let so = old(move_system).selected_object->0;
            &&& final(move_system).selected_object is Some
            &&& final(move_system).selected_object->0.entity == so.entity
            &&& final(move_system).selected_object->0.force == so.force
            &&& final(move_system).selected_object->0.distance == so.distance
        },
        // While holding, the relative axes follow the rotate input and
        // nothing else: untouched while it is inactive, composed with the
        // requested rotation while it is active.
        old(move_system).selected_object is Some && grab_input.pick_down && resolvable_s(
            *old(scene),
            *old(world),
            old(move_system).selected_object->0.entity,
        ) && !grab_input.rotate_active ==> {
            let so = old(move_system).selected_object->0;
            &&& final(move_system).selected_object->0.box_forward === so.box_forward
            &&& final(move_system).selected_object->0.box_up === so.box_up
        },
        old(move_system).selected_object is Some && grab_input.pick_down && resolvable_s(
            *old(scene),
            *old(world),
            old(move_system).selected_object->0.entity,
        ) && grab_input.rotate_active ==> {
            let so = old(move_system).selected_object->0;
            &&& final(move_system).selected_object->0.box_forward@ === clamp3_s(
                apply_s(grab_input.rotation@, so.box_forward@),
                AXIS_LIM as int,
            )
            &&& final(move_system).selected_object->0.box_up@ === clamp3_s(
                apply_s(grab_input.rotation@, so.box_up@),
                AXIS_LIM as int,
            )
        },
        // Pose write-back: every record but the camera's keeps its
        // identity and components (only material and transform can move),
        // and, when its collider resolves, its transform is the stepped
        // body pose.
        final(scene).entries@.len() == old(scene).entries@.len(),
        forall|i: int|
            0 <= i < old(scene).entries@.len() && i != camera_idx_s(*old(scene)) ==> {
                let e = old(scene).entries@[i];
                &&& (#[trigger] final(scene).entries@[i]) === (EntityRec {
                    material: final(scene).entries@[i].material,
                    transform: final(scene).entries@[i].transform,
                    ..e
                })
                &&& (rec_resolves_s(e, *final(world)) ==> final(scene).entries@[i].transform
                    === rec_body_pose_s(e, *final(world)))
                &&& (!rec_resolves_s(e, *final(world)) ==> final(scene).entries@[i].transform
                    === e.transform)
            },
        // Locomotion: a kinematic self body ends the frame with exactly
        // the commanded walking velocity (the steps do not disturb it).
        self_resolves_s(*old(scene), *old(world)) && !old(world).body(
            self_body_handle_s(*old(scene), *old(world)),
        ).dynamic ==> final(world).has_body(self_body_handle_s(*old(scene), *old(world)))
            && final(world).body(self_body_handle_s(*old(scene), *old(world))).linvel@ === (
        if locomotion_input.focused {
            match walk_velocity_s(
                old(scene).entries@[camera_idx_s(*old(scene))].transform.rotation@,
                locomotion_input.move_x as int,
                locomotion_input.move_z as int,
                translation_system.selected_speed(locomotion_input.running),
            ) {
                Some(v) => v,
                None => V3 { x: 0, y: 0, z: 0 },
            }
        } else {
            V3 { x: 0, y: 0, z: 0 }
        }),
        // Camera follow: with a self body resolvable in the stepped world,
        // the camera entry's horizontal position comes from that body and
        // its height from the collider's top; its components survive.
        self_resolves_s(*old(scene), *final(world)) ==> {
            let bh = self_body_handle_s(*old(scene), *final(world));
            let body = final(world).body(bh);
            let top = clamp_s(
                body.pose.translation@.y + final(world).collider(
                    self_collider_s(*old(scene)),
                ).half_height,
                POS_LIM as int,
            );
            let ci = camera_idx_s(*old(scene));
            &&& final(scene).entries@[ci] === (EntityRec {
                material: final(scene).entries@[ci].material,
                transform: final(scene).entries@[ci].transform,
                ..old(scene).entries@[ci]
            })
            &&& final(scene).entries@[ci].transform.translation@ === (V3 {
                x: body.pose.translation@.x,
                y: top,
                z: body.pose.translation@.z,
            })
        },
{
    let ghost s0 = *scene;
    let ghost w0 = *world;
    let camera: Pose = match camera_pose(scene) {
        Some(c) => c,
        None => {
            proof {
                assert(false);
            }
            return 0;
        },
    };
    move_system.run(scene, world, grab_input, hits, &camera, delta_seconds);
    let ghost s1 = *scene;
    let ghost w1 = *world;
    proof {
        lemma_self_camera_stable(s0, s1);
        if self_resolves_s(s0, w0) {
            lemma_body_lookup_stable(w0, w1, self_body_handle_s(s0, w0));
        }
    }
    translation_system.run(scene, world, locomotion_input, &camera);
    let ghost w2 = *world;
    let steps: u64 = physics_system.run(world, scene, delta_seconds);
    let ghost s2 = *scene;
    let ghost w3 = *world;
    proof {
        assert forall|k: int| 0 <= k < s0.entries@.len() implies (#[trigger] s2.entries@[k])
            === (EntityRec {
            material: s2.entries@[k].material,
            transform: s2.entries@[k].transform,
            ..s0.entries@[k]
        }) by {
            assert(s1.entries@[k] === (EntityRec {
                material: s1.entries@[k].material,
                ..s0.entries@[k]
            }));
        }
        lemma_self_camera_stable(s0, s2);
        if self_resolves_s(s0, w0) && !w0.body(self_body_handle_s(s0, w0)).dynamic {
            let bh = self_body_handle_s(s0, w0);
            let idx = w0.body_idx(bh);
            lemma_body_lookup_stable(w0, w2, bh);
            lemma_body_lookup_stable(w0, w3, bh);
            assert(w3.bodies@[idx].linvel == w2.bodies@[idx].linvel);
        }
        if self_resolves_s(s0, w3) {
            lemma_body_lookup_stable(w0, w3, self_body_handle_s(s0, w3));
        }
    }
    follow_self(scene, world);
    proof {
        let ci0 = camera_idx_s(s0);
        assert forall|i: int|
            0 <= i < s0.entries@.len() && i != ci0 implies {
            let e = s0.entries@[i];
            &&& (#[trigger] final(scene).entries@[i]) === (EntityRec {
                material: final(scene).entries@[i].material,
                transform: final(scene).entries@[i].transform,
                ..e
            })
            &&& (rec_resolves_s(e, w3) ==> final(scene).entries@[i].transform
                === rec_body_pose_s(e, w3))
            &&& (!rec_resolves_s(e, w3) ==> final(scene).entries@[i].transform === e.transform)
        } by {
            assert(final(scene).entries@[i] === s2.entries@[i]);
            assert(s1.entries@[i].body === s0.entries@[i].body);
            match s0.entries@[i].body {
                Some(pb) => {
                    assert(s1.entries@[i].body === Some(pb));
                },
                None => {},
            }
        }
    }
    steps
}

} // verus!
