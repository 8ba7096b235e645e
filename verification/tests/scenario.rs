use grabsim::components::{Grabbable, PhysicsBody};
use grabsim::fx::FX_ONE;
use grabsim::frame::{camera_pose, frame};
use grabsim::game_state::GameState;
use grabsim::grab::{GrabInput, MoveSystem};
use grabsim::locomotion::{LocomotionInput, TranslationSystem};
use grabsim::picking::RayHit;
use grabsim::scene::{EntityRec, Scene};
use grabsim::stepper::PhysicsSystem;
use grabsim::vec3::{Mat3, Pose, Vec3};
use grabsim::world::MyWorld;

fn identity() -> Mat3 {
    Mat3 {
        r0: Vec3 { x: FX_ONE, y: 0, z: 0 },
        r1: Vec3 { x: 0, y: FX_ONE, z: 0 },
        r2: Vec3 { x: 0, y: 0, z: FX_ONE },
    }
}

fn pose_at(x: i64, y: i64, z: i64) -> Pose {
    Pose { translation: Vec3 { x, y, z }, rotation: identity() }
}

/// A cube one unit wide, three units directly ahead of a camera at the
/// origin that looks along its negative local z axis.
fn cube_ahead() -> (Scene, MyWorld, u64, u64) {
    let mut world = MyWorld::default();
    world.set_gravity(Vec3 { x: 0, y: -642908, z: 0 });
    let bh = world.add_rigid_body(pose_at(0, 0, -3 * FX_ONE), true);
    let ch = world.add_collider(bh, 32768);
    let mut scene = Scene::new();
    let cube = scene.spawn(EntityRec {
        grabbable: Some(Grabbable { default_material: 1, selected_material: 2 }),
        material: Some(1),
        body: Some(PhysicsBody(ch)),
        ..Scene::blank(pose_at(0, 0, -3 * FX_ONE))
    });
    (scene, world, cube, ch)
}

#[test]
fn pick_carry_and_settle_three_units_ahead() {
    let (mut scene, mut world, cube, ch) = cube_ahead();
    let camera = pose_at(0, 0, 0);
    let mut ms = MoveSystem::new();
    // The engine reports the ray meeting the cube's face: three units
    // minus the half extent.
    let toi = 3 * FX_ONE - 32768;
    let hits = vec![RayHit { entity: cube, toi }];
    let input = GrabInput { pick_down: true, rotate_active: false, rotation: identity() };
    ms.run(&mut scene, &mut world, &input, &hits, &camera, 1092);
    let so = ms.selected_object.unwrap();
    assert_eq!(so.entity, cube);
    assert_eq!(so.distance, toi);
    // Gravity compensation: over many steps the held body's vertical
    // velocity stays exactly zero and no downward motion accumulates.
    let bh = world.collider_body_handle(ch).unwrap();
    for _ in 0..10 {
        world.step();
        let v = world.body_linear_velocity(bh).unwrap();
        assert_eq!(v.y, 0);
    }
    assert_eq!(world.body_pose(bh).unwrap().translation.y, 0);
    // The camera steps back one unit; the hold frame commands a velocity
    // that carries the object with it, restoring the held distance.
    let moved = pose_at(0, 0, FX_ONE);
    ms.run(&mut scene, &mut world, &input, &hits, &moved, FX_ONE);
    let v = world.body_linear_velocity(bh).unwrap();
    assert_eq!(v, Vec3 { x: 0, y: 0, z: FX_ONE });
    world.step();
    let p = world.body_pose(bh).unwrap().translation;
    // After one timestep the object has started following; after a full
    // second of such steps it would sit three units ahead again.
    assert_eq!(p, Vec3 { x: 0, y: 0, z: -3 * FX_ONE + 1092 });
    assert_eq!(world.body_linear_velocity(bh).unwrap().y, 0);
    // Releasing re-exposes the body to gravity.
    let release = GrabInput { pick_down: false, rotate_active: false, rotation: identity() };
    ms.run(&mut scene, &mut world, &release, &hits, &moved, 1092);
    assert_eq!(world.force_generators.len(), 0);
    world.step();
    assert!(world.body_linear_velocity(bh).unwrap().y < 0);
}

#[test]
fn opening_scene_builds_and_runs_a_frame() {
    let mut scene = Scene::new();
    let mut world = MyWorld::default();
    let mut gs = GameState::default();
    let cubes = vec![
        Grabbable { default_material: 10, selected_material: 20 },
        Grabbable { default_material: 11, selected_material: 21 },
        Grabbable { default_material: 12, selected_material: 22 },
        Grabbable { default_material: 13, selected_material: 23 },
        Grabbable { default_material: 14, selected_material: 24 },
    ];
    gs.on_start(&mut scene, &mut world, 99, 5, &cubes);
    assert_eq!(scene.entries.len(), 8);
    assert_eq!(world.bodies.len(), 6);
    assert_eq!(world.colliders.len(), 7);
    assert_eq!(world.gravity, Vec3 { x: 0, y: -642908, z: 0 });
    // The camera stands at standing height over the self body.
    let cam = camera_pose(&scene).unwrap();
    assert_eq!(
        cam.translation,
        Vec3 { x: 8 * FX_ONE, y: 117964, z: 4 * FX_ONE },
    );
    // One full frame with no input: nothing is held, the world advances.
    let mut ms = MoveSystem::new();
    let ts = TranslationSystem::default();
    let mut ps = PhysicsSystem::new();
    let grab_input = GrabInput { pick_down: false, rotate_active: false, rotation: identity() };
    let loco_input = LocomotionInput { move_x: 0, move_z: 0, running: false, focused: true };
    let hits: Vec<RayHit> = vec![];
    let forces_before = world.force_generators.clone();
    let steps = frame(
        &mut ms,
        &ts,
        &mut ps,
        &mut scene,
        &mut world,
        &grab_input,
        &loco_input,
        &hits,
        1092,
    );
    assert_eq!(steps, 1);
    assert!(ms.selected_object.is_none());
    assert_eq!(world.force_generators, forces_before);
    // The cubes are dynamic and started falling, and the write-back
    // projected each body pose into its entity's transform.
    let cube_collider = scene.body_for(1).unwrap();
    let cube_body = world.collider_body_handle(cube_collider).unwrap();
    assert!(world.body_linear_velocity(cube_body).unwrap().y < 0);
    let i = scene.find_index(1).unwrap();
    assert_eq!(
        scene.entries[i].transform.translation,
        world.body_pose(cube_body).unwrap().translation,
    );
    // Cube one spawns at fixed-point height 2.5 and has begun to drop.
    assert!(scene.entries[i].transform.translation.y < 163840);
    // The self body is kinematic and stayed put.
    let self_collider = scene.body_for(6).unwrap();
    let self_body = world.collider_body_handle(self_collider).unwrap();
    assert_eq!(world.body_linear_velocity(self_body).unwrap().y, 0);
}

#[test]
fn frame_keeps_the_camera_glued_to_the_self_body() {
    let mut scene = Scene::new();
    let mut world = MyWorld::default();
    let mut gs = GameState::default();
    let cubes = vec![
        Grabbable { default_material: 10, selected_material: 20 },
        Grabbable { default_material: 11, selected_material: 21 },
        Grabbable { default_material: 12, selected_material: 22 },
        Grabbable { default_material: 13, selected_material: 23 },
        Grabbable { default_material: 14, selected_material: 24 },
    ];
    gs.on_start(&mut scene, &mut world, 99, 5, &cubes);
    let mut ms = MoveSystem::new();
    let ts = TranslationSystem::default();
    let mut ps = PhysicsSystem::new();
    let grab_input = GrabInput { pick_down: false, rotate_active: false, rotation: identity() };
    // Walk forward (the camera observes along +x, so local x is -z).
    let loco_input = LocomotionInput { move_x: FX_ONE, move_z: 0, running: false, focused: true };
    let hits: Vec<RayHit> = vec![];
    frame(
        &mut ms,
        &ts,
        &mut ps,
        &mut scene,
        &mut world,
        &grab_input,
        &loco_input,
        &hits,
        1092,
    );
    let cam = camera_pose(&scene).unwrap();
    // One step of walking along -z from z = 4.
    assert_eq!(
        cam.translation,
        Vec3 { x: 8 * FX_ONE, y: 117964, z: 4 * FX_ONE - 1092 },
    );
}
