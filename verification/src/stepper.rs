//! The fixed-step physics driver.
//!
//! A scalar accumulator gathers elapsed wall-clock time; each frame the
//! world advances by whole fixed timesteps, never more than
//! `MAX_STEPS_PER_RUN` of them, and the remainder stays in the accumulator
//! for the next frame (a bounded catch-up, so an arbitrarily long stall can
//! never spiral). After stepping, every physics-backed entity's scene
//! transform is overwritten from its body pose: once a body exists, the
//! transform is a read-only projection of physics state.

use vstd::prelude::*;
use crate::fx::FX_ONE;
use crate::vec3::Pose;
use crate::scene::{Scene, EntityRec};
use crate::world::MyWorld;

verus! {

/// The catch-up cap: at most this many timesteps advance in one frame.
pub const MAX_STEPS_PER_RUN: u64 = 4;

/// Cap on the backlog the accumulator may carry.
pub const ACCUM_MAX: i64 = 0x1_0000_0000;

/// The fixed-step driver; the accumulator persists across frames.
#[derive(Clone, Copy, Debug, PartialEq, Eq, Structural, Default)]
pub struct PhysicsSystem {
    pub time_accumulator: i64,
}

/// How many steps a frame with backlog `acc` and timestep `ts` performs:
/// the whole timesteps available, capped by `MAX_STEPS_PER_RUN`.
pub open spec fn steps_taken_s(acc: int, ts: int) -> int
    recommends
        ts > 0,
        acc >= 0,
{
    if acc / ts >= MAX_STEPS_PER_RUN as int {
        MAX_STEPS_PER_RUN as int
    } else {
        acc / ts
    }
}

/// The entity record's collider handle resolves to a live body in `w`.
pub open spec fn rec_resolves_s(e: EntityRec, w: MyWorld) -> bool {
    match e.body {
        Some(pb) => w.has_collider(pb.0) && w.has_body(w.collider(pb.0).body),
        None => false,
    }
}

/// The pose of the body behind the record's collider handle.
pub open spec fn rec_body_pose_s(e: EntityRec, w: MyWorld) -> Pose
    recommends
        rec_resolves_s(e, w),
{
    match e.body {
        Some(pb) => w.body(w.collider(pb.0).body).pose,
        None => w.body(0).pose,
    }
}

impl PhysicsSystem {
    pub open spec fn wf(self) -> bool {
        0 <= self.time_accumulator <= ACCUM_MAX
    }

    /// A driver with an empty accumulator.
    pub fn new() -> (r: PhysicsSystem)
        ensures
            r.time_accumulator == 0,
            r.wf(),
    {
        PhysicsSystem { time_accumulator: 0 }
    }

    /// One driver frame: adds the elapsed time to the accumulator (the
    /// backlog saturates at `ACCUM_MAX`), advances the world one timestep
    /// at a time while a whole timestep is available but never more than
    /// `MAX_STEPS_PER_RUN` times, keeps the remainder, and copies every
    /// resolvable body pose back into its entity's scene transform.
    /// Returns how many steps ran.
    pub fn run(&mut self, world: &mut MyWorld, scene: &mut Scene, delta_seconds: i64) -> (steps:
        u64)
        requires
            old(self).wf(),
            old(world).wf(),
            old(scene).wf(),
            0 <= delta_seconds <= ACCUM_MAX,
        ensures
            final(self).wf(),
            final(world).wf(),
            final(scene).wf(),
            // The step count and the remainder, exactly.
            ({
                let acc0 = if old(self).time_accumulator + delta_seconds > ACCUM_MAX {
                    ACCUM_MAX as int
                } else {
                    old(self).time_accumulator + delta_seconds
                };
                &&& steps == steps_taken_s(acc0, old(world).timestep as int)
                &&& final(self).time_accumulator == acc0 - steps * old(world).timestep
            }),
            steps <= MAX_STEPS_PER_RUN,
            steps < MAX_STEPS_PER_RUN ==> final(self).time_accumulator < old(world).timestep,
            // The world only stepped: its population is untouched.
            final(world).bodies@.len() == old(world).bodies@.len(),
            final(world).colliders == old(world).colliders,
            final(world).force_generators == old(world).force_generators,
            final(world).gravity == old(world).gravity,
            final(world).timestep == old(world).timestep,
            final(world).next_body_handle == old(world).next_body_handle,
            final(world).next_collider_handle == old(world).next_collider_handle,
            final(world).next_force_handle == old(world).next_force_handle,
            steps == 0 ==> final(world).bodies == old(world).bodies,
            forall|k: int|
                0 <= k < old(world).bodies@.len() ==> {
                    &&& (#[trigger] final(world).bodies@[k]).handle == old(
                        world,
                    ).bodies@[k].handle
                    &&& final(world).bodies@[k].dynamic == old(world).bodies@[k].dynamic
                    &&& final(world).bodies@[k].pose.rotation == old(
                        world,
                    ).bodies@[k].pose.rotation
                    &&& final(world).bodies@[k].angvel == old(world).bodies@[k].angvel
                    &&& (!old(world).bodies@[k].dynamic ==> final(world).bodies@[k].linvel
                        == old(world).bodies@[k].linvel)
                },
            // Pose write-back: each entity whose collider resolves takes
            // its body's pose as transform; every other record is
            // untouched.
            final(scene).next_id == old(scene).next_id,
            final(scene).entries@.len() == old(scene).entries@.len(),
            forall|i: int|
                0 <= i < old(scene).entries@.len() ==> final(scene).entries@[i] === (if
                    rec_resolves_s(old(scene).entries@[i], *final(world)) {
                    EntityRec {
                        transform: rec_body_pose_s(old(scene).entries@[i], *final(world)),
                        ..old(scene).entries@[i]
                    }
                } else {
                    old(scene).entries@[i]
                }),
    {
        let ts: i64 = world.timestep();
        let sum: i64 = self.time_accumulator + delta_seconds;
        let acc0: i64 = if sum > ACCUM_MAX {
            ACCUM_MAX
        } else {
            sum
        };
        self.time_accumulator = acc0;
        let mut steps: u64 = 0;
        while self.time_accumulator >= ts && steps < MAX_STEPS_PER_RUN
            invariant
                world.wf(),
                0 < ts <= FX_ONE,
                ts == old(world).timestep,
                0 <= self.time_accumulator,
                steps <= MAX_STEPS_PER_RUN,
                self.time_accumulator == acc0 - steps * ts,
                world.bodies@.len() == old(world).bodies@.len(),
                world.colliders == old(world).colliders,
                world.force_generators == old(world).force_generators,
                world.gravity == old(world).gravity,
                world.timestep == old(world).timestep,
                world.next_body_handle == old(world).next_body_handle,
                world.next_collider_handle == old(world).next_collider_handle,
                world.next_force_handle == old(world).next_force_handle,
                steps == 0 ==> world.bodies == old(world).bodies,
                forall|k: int|
                    0 <= k < old(world).bodies@.len() ==> {
                        &&& (#[trigger] world.bodies@[k]).handle == old(
                            world,
                        ).bodies@[k].handle
                        &&& world.bodies@[k].dynamic == old(world).bodies@[k].dynamic
                        &&& world.bodies@[k].pose.rotation == old(world).bodies@[k].pose.rotation
                        &&& world.bodies@[k].angvel == old(world).bodies@[k].angvel
                        &&& (!old(world).bodies@[k].dynamic ==> world.bodies@[k].linvel == old(
                            world,
                        ).bodies@[k].linvel)
                    },
            decreases MAX_STEPS_PER_RUN - steps,
        {
            world.step();
            self.time_accumulator = self.time_accumulator - ts;
            steps = steps + 1;
            proof {
                vstd::arithmetic::mul::lemma_mul_is_distributive_add_other_way(
                    ts as int,
                    steps as int - 1,
                    1,
                );
            }
        }
        proof {
            let acc_i: int = acc0 as int;
            let ts_i: int = ts as int;
            let n: int = steps as int;
            if steps == MAX_STEPS_PER_RUN {
                vstd::arithmetic::div_mod::lemma_div_is_ordered(4 * ts_i, acc_i, ts_i);
                vstd::arithmetic::div_mod::lemma_div_by_multiple(4, ts_i);
            } else {
                assert(self.time_accumulator < ts);
                vstd::arithmetic::div_mod::lemma_fundamental_div_mod_converse_div(
                    acc_i,
                    ts_i,
                    n,
                    acc_i - n * ts_i,
                );
            }
        }
        // Pose write-back: the scene transform of every physics-backed
        // entity becomes a projection of its body's pose.
        let mut i: usize = 0;
        while i < scene.entries.len()
            invariant
                scene.wf(),
                world.wf(),
                i <= scene.entries@.len(),
                scene.next_id == old(scene).next_id,
                scene.entries@.len() == old(scene).entries@.len(),
                forall|k: int| i <= k < scene.entries@.len() ==> scene.entries@[k] === old(
                    scene,
                ).entries@[k],
                forall|k: int|
                    0 <= k < i ==> scene.entries@[k] === (if rec_resolves_s(
                        old(scene).entries@[k],
                        *world,
                    ) {
                        EntityRec {
                            transform: rec_body_pose_s(old(scene).entries@[k], *world),
                            ..old(scene).entries@[k]
                        }
                    } else {
                        old(scene).entries@[k]
                    }),
            decreases scene.entries@.len() - i,
        {
            let e: EntityRec = scene.entries[i];
            match e.body {
                Some(pb) => {
                    match world.collider_body_handle(pb.0) {
                        Some(bh) => {
                            match world.body_pose(bh) {
                                Some(p) => {
                                    let updated: EntityRec = EntityRec { transform: p, ..e };
                                    scene.entries.set(i, updated);
                                },
                                None => {},
                            }
                        },
                        None => {},
                    }
                },
                None => {},
            }
            i = i + 1;
        }
        steps
    }
}

} // verus!
