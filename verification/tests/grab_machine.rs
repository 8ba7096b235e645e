use grabsim::components::{Grabbable, PhysicsBody};
use grabsim::fx::FX_ONE;
use grabsim::grab::{GrabInput, MoveSystem, MAX_TOI_GRAB};
use grabsim::picking::RayHit;
use grabsim::scene::{EntityRec, Scene};
use grabsim::vec3::{Mat3, Pose, Vec3};
use grabsim::world::MyWorld;

fn identity() -> Mat3 {
    Mat3 {
        r0: Vec3 { x: FX_ONE, y: 0, z: 0 },
        r1: Vec3 { x: 0, y: FX_ONE, z: 0 },
        r2: Vec3 { x: 0, y: 0, z: FX_ONE },
    }
}

fn pose_at(x: i64, y: i64, z: i64) -> Pose {
    Pose { translation: Vec3 { x, y, z }, rotation: identity() }
}

/// A world with gravity and one grabbable cube three units ahead of an
/// origin camera; returns the cube's entity and collider handle.
fn setup() -> (Scene, MyWorld, u64, u64) {
    let mut world = MyWorld::default();
    world.set_gravity(Vec3 { x: 0, y: -642908, z: 0 });
    let bh = world.add_rigid_body(pose_at(0, 0, -3 * FX_ONE), true);
    let ch = world.add_collider(bh, 32112);
    let mut scene = Scene::new();
    let cube = scene.spawn(EntityRec {
        grabbable: Some(Grabbable { default_material: 7, selected_material: 8 }),
        material: Some(7),
        body: Some(PhysicsBody(ch)),
        ..Scene::blank(pose_at(0, 0, -3 * FX_ONE))
    });
    (scene, world, cube, ch)
}

fn press(pick_down: bool) -> GrabInput {
    GrabInput { pick_down, rotate_active: false, rotation: identity() }
}

fn hit_at(entity: u64, toi: i64) -> Vec<RayHit> {
    vec![RayHit { entity, toi }]
}

#[test]
fn grab_hold_release_keeps_force_invariant() {
    let (mut scene, mut world, cube, _ch) = setup();
    let camera = pose_at(0, 0, 0);
    let mut ms = MoveSystem::new();
    let dt = 1092;
    for _ in 0..3 {
        // Press edge: grab. One live compensating force.
        ms.run(&mut scene, &mut world, &press(true), &hit_at(cube, 163840), &camera, dt);
        assert!(ms.selected_object.is_some());
        assert_eq!(world.force_generators.len(), 1);
        // Button held: still holding, still one force.
        ms.run(&mut scene, &mut world, &press(true), &hit_at(cube, 163840), &camera, dt);
        assert!(ms.selected_object.is_some());
        assert_eq!(world.force_generators.len(), 1);
        // Release: idle, no force.
        ms.run(&mut scene, &mut world, &press(false), &hit_at(cube, 163840), &camera, dt);
        assert!(ms.selected_object.is_none());
        assert_eq!(world.force_generators.len(), 0);
    }
}

#[test]
fn compensating_force_reverses_gravity() {
    let (mut scene, mut world, cube, ch) = setup();
    let camera = pose_at(0, 0, 0);
    let mut ms = MoveSystem::new();
    ms.run(&mut scene, &mut world, &press(true), &hit_at(cube, 163840), &camera, 1092);
    assert_eq!(world.force_generators.len(), 1);
    let f = world.force_generators[0];
    assert_eq!(f.acceleration, Vec3 { x: 0, y: 642908, z: 0 });
    assert_eq!(Some(f.body), world.collider_body_handle(ch));
}

#[test]
fn releasing_while_idle_is_a_no_op() {
    let (mut scene, mut world, cube, _ch) = setup();
    let camera = pose_at(0, 0, 0);
    let before_world = world.clone();
    let before_scene = scene.clone();
    let mut ms = MoveSystem::new();
    ms.run(&mut scene, &mut world, &press(false), &hit_at(cube, 163840), &camera, 1092);
    assert!(ms.selected_object.is_none());
    assert_eq!(world, before_world);
    assert_eq!(scene, before_scene);
}

#[test]
fn out_of_reach_hit_is_not_grabbed() {
    let (mut scene, mut world, cube, _ch) = setup();
    let camera = pose_at(0, 0, 0);
    let mut ms = MoveSystem::new();
    // Exactly at the limit is already too far: the filter is strict.
    ms.run(&mut scene, &mut world, &press(true), &hit_at(cube, MAX_TOI_GRAB), &camera, 1092);
    assert!(ms.selected_object.is_none());
    assert_eq!(world.force_generators.len(), 0);
}

#[test]
fn no_press_edge_no_grab() {
    let (mut scene, mut world, cube, _ch) = setup();
    let camera = pose_at(0, 0, 0);
    let mut ms = MoveSystem::new();
    // The button was already down when the machine first sees it held:
    // first frame grabs (edge from the initial up state)...
    ms.run(&mut scene, &mut world, &press(true), &hit_at(cube, 163840), &camera, 1092);
    assert!(ms.selected_object.is_some());
    // ...release, then keep the button down across two frames: the second
    // frame has no edge, so nothing is picked.
    ms.run(&mut scene, &mut world, &press(false), &hit_at(cube, 163840), &camera, 1092);
    let mut idle = MoveSystem { selected_object: None, pick_was_down: true };
    idle.run(&mut scene, &mut world, &press(true), &hit_at(cube, 163840), &camera, 1092);
    assert!(idle.selected_object.is_none());
    assert_eq!(world.force_generators.len(), 0);
}

#[test]
fn grab_swaps_material_and_release_restores_it() {
    let (mut scene, mut world, cube, _ch) = setup();
    let camera = pose_at(0, 0, 0);
    let mut ms = MoveSystem::new();
    ms.run(&mut scene, &mut world, &press(true), &hit_at(cube, 163840), &camera, 1092);
    let i = scene.find_index(cube).unwrap();
    assert_eq!(scene.entries[i].material, Some(8));
    ms.run(&mut scene, &mut world, &press(false), &hit_at(cube, 163840), &camera, 1092);
    assert_eq!(scene.entries[i].material, Some(7));
}

#[test]
fn grab_records_distance_and_relative_axes() {
    let (mut scene, mut world, cube, _ch) = setup();
    let camera = pose_at(0, 0, 0);
    let mut ms = MoveSystem::new();
    ms.run(&mut scene, &mut world, &press(true), &hit_at(cube, 163840), &camera, 1092);
    let so = ms.selected_object.unwrap();
    assert_eq!(so.entity, cube);
    assert_eq!(so.distance, 163840);
    // Identity body and camera rotations: the relative axes are the local
    // axes themselves.
    assert_eq!(so.box_forward, Vec3 { x: 0, y: 0, z: FX_ONE });
    assert_eq!(so.box_up, Vec3 { x: 0, y: FX_ONE, z: 0 });
    assert_eq!(so.previous_camera_position, camera);
}

#[test]
fn reorient_changes_axes_but_not_distance_or_entity() {
    let (mut scene, mut world, cube, _ch) = setup();
    let camera = pose_at(0, 0, 0);
    let mut ms = MoveSystem::new();
    ms.run(&mut scene, &mut world, &press(true), &hit_at(cube, 163840), &camera, 1092);
    let before = ms.selected_object.unwrap();
    // A quarter turn about the y axis.
    let quarter = Mat3 {
        r0: Vec3 { x: 0, y: 0, z: FX_ONE },
        r1: Vec3 { x: 0, y: FX_ONE, z: 0 },
        r2: Vec3 { x: -FX_ONE, y: 0, z: 0 },
    };
    ms.rotate_selected_object(&quarter);
    let after = ms.selected_object.unwrap();
    assert_eq!(after.entity, before.entity);
    assert_eq!(after.distance, before.distance);
    assert_eq!(after.force, before.force);
    assert_ne!(after.box_forward, before.box_forward);
    assert_eq!(after.box_forward, Vec3 { x: FX_ONE, y: 0, z: 0 });
    assert_eq!(after.box_up, before.box_up);
}

#[test]
fn reorient_while_idle_changes_nothing() {
    let mut ms = MoveSystem::new();
    let quarter = Mat3 {
        r0: Vec3 { x: 0, y: 0, z: FX_ONE },
        r1: Vec3 { x: 0, y: FX_ONE, z: 0 },
        r2: Vec3 { x: -FX_ONE, y: 0, z: 0 },
    };
    ms.rotate_selected_object(&quarter);
    assert!(ms.selected_object.is_none());
}

#[test]
fn stale_body_clears_held_state_without_panic() {
    let (mut scene, mut world, cube, ch) = setup();
    let camera = pose_at(0, 0, 0);
    let mut ms = MoveSystem::new();
    ms.run(&mut scene, &mut world, &press(true), &hit_at(cube, 163840), &camera, 1092);
    assert!(ms.selected_object.is_some());
    // The object's collider disappears while it is held.
    assert!(world.remove_collider(ch));
    ms.run(&mut scene, &mut world, &press(true), &hit_at(cube, 163840), &camera, 1092);
    assert!(ms.selected_object.is_none());
    assert_eq!(world.force_generators.len(), 0);
}

#[test]
fn hold_commands_velocity_from_camera_delta() {
    let (mut scene, mut world, cube, ch) = setup();
    let camera = pose_at(0, 0, 0);
    let mut ms = MoveSystem::new();
    ms.run(&mut scene, &mut world, &press(true), &hit_at(cube, 163840), &camera, 1092);
    // The camera moves one unit along +x; the hold frame lasts one second,
    // so the commanded linear velocity is one unit per second along +x.
    let moved = pose_at(FX_ONE, 0, 0);
    ms.run(&mut scene, &mut world, &press(true), &hit_at(cube, 163840), &moved, FX_ONE);
    let bh = world.collider_body_handle(ch).unwrap();
    let v = world.body_linear_velocity(bh).unwrap();
    assert_eq!(v, Vec3 { x: FX_ONE, y: 0, z: 0 });
    // With identical body and camera orientations the steering angular
    // velocity vanishes.
    let so = ms.selected_object.unwrap();
    assert_eq!(so.previous_camera_position, moved);
    assert_eq!(ms.selected_object.unwrap().distance, 163840);
}

#[test]
fn rotate_input_during_hold_reorients_through_run() {
    let (mut scene, mut world, cube, _ch) = setup();
    let camera = pose_at(0, 0, 0);
    let mut ms = MoveSystem::new();
    ms.run(&mut scene, &mut world, &press(true), &hit_at(cube, 163840), &camera, 1092);
    let before = ms.selected_object.unwrap();
    let quarter = Mat3 {
        r0: Vec3 { x: 0, y: 0, z: FX_ONE },
        r1: Vec3 { x: 0, y: FX_ONE, z: 0 },
        r2: Vec3 { x: -FX_ONE, y: 0, z: 0 },
    };
    let rotate = GrabInput { pick_down: true, rotate_active: true, rotation: quarter };
    ms.run(&mut scene, &mut world, &rotate, &hit_at(cube, 163840), &camera, 1092);
    let after = ms.selected_object.unwrap();
    assert_eq!(after.entity, before.entity);
    assert_eq!(after.distance, before.distance);
    assert_eq!(after.box_forward, Vec3 { x: FX_ONE, y: 0, z: 0 });
}

#[test]
fn mismatched_axes_command_a_steering_angular_velocity() {
    let (mut scene, mut world, cube, ch) = setup();
    let camera = pose_at(0, 0, 0);
    let mut ms = MoveSystem::new();
    ms.run(&mut scene, &mut world, &press(true), &hit_at(cube, 163840), &camera, 1092);
    // Re-orient the held object a quarter turn about y; its recorded
    // forward now disagrees with the camera's.
    let quarter = Mat3 {
        r0: Vec3 { x: 0, y: 0, z: FX_ONE },
        r1: Vec3 { x: 0, y: FX_ONE, z: 0 },
        r2: Vec3 { x: -FX_ONE, y: 0, z: 0 },
    };
    ms.rotate_selected_object(&quarter);
    // The next hold frame steers: forward-cross-forward is a pure y turn,
    // scaled by the fixed gain of fifty.
    ms.run(&mut scene, &mut world, &press(true), &hit_at(cube, 163840), &camera, FX_ONE);
    let bh = world.collider_body_handle(ch).unwrap();
    let i = world.bodies.iter().position(|b| b.handle == bh).unwrap();
    assert_eq!(world.bodies[i].angvel, Vec3 { x: 0, y: -50 * FX_ONE, z: 0 });
    assert_eq!(world.bodies[i].linvel, Vec3 { x: 0, y: 0, z: 0 });
}
