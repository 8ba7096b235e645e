use grabsim::components::PhysicsBody;
use grabsim::fx::FX_ONE;
use grabsim::loading::{LoadedMesh, LoadedSystem};
use grabsim::merge::{ContactPair, MergeSystem};
use grabsim::picking::RayHit;
use grabsim::scene::{EntityRec, Scene};
use grabsim::vec3::{Mat3, Pose, Vec3};
use grabsim::world::MyWorld;

fn identity() -> Mat3 {
    Mat3 {
        r0: Vec3 { x: FX_ONE, y: 0, z: 0 },
        r1: Vec3 { x: 0, y: FX_ONE, z: 0 },
        r2: Vec3 { x: 0, y: 0, z: FX_ONE },
    }
}

fn pose_at(x: i64, y: i64, z: i64) -> Pose {
    Pose { translation: Vec3 { x, y, z }, rotation: identity() }
}

fn mergeable_entity(scene: &mut Scene, collider: u64) -> u64 {
    scene.spawn(EntityRec {
        mergeable: true,
        body: Some(PhysicsBody(collider)),
        ..Scene::blank(pose_at(0, 0, 0))
    })
}

#[test]
fn merge_collects_pointed_object_and_contact_neighbours() {
    let mut scene = Scene::new();
    let center = mergeable_entity(&mut scene, 10);
    let touching = mergeable_entity(&mut scene, 11);
    let touching_too = mergeable_entity(&mut scene, 12);
    let apart = mergeable_entity(&mut scene, 13);
    let system = MergeSystem::default();
    let hits = vec![RayHit { entity: center, toi: 2 * FX_ONE }];
    let contacts = vec![
        ContactPair { a: 10, b: 11 },
        ContactPair { a: 12, b: 10 },
        ContactPair { a: 12, b: 13 },
    ];
    let set = system.run(&scene, &hits, &contacts, true).unwrap();
    assert_eq!(set, vec![center, touching, touching_too]);
    assert!(!set.contains(&apart));
}

#[test]
fn merge_without_the_key_does_nothing() {
    let mut scene = Scene::new();
    let center = mergeable_entity(&mut scene, 10);
    let system = MergeSystem::default();
    let hits = vec![RayHit { entity: center, toi: FX_ONE }];
    assert!(system.run(&scene, &hits, &vec![], false).is_none());
}

#[test]
fn merge_target_beyond_reach_is_ignored() {
    let mut scene = Scene::new();
    let center = mergeable_entity(&mut scene, 10);
    let system = MergeSystem::default();
    // Five units is already out of merging reach.
    let hits = vec![RayHit { entity: center, toi: 5 * FX_ONE }];
    assert!(system.run(&scene, &hits, &vec![], true).is_none());
}

#[test]
fn contacts_of_unmergeable_neighbours_are_skipped() {
    let mut scene = Scene::new();
    let center = mergeable_entity(&mut scene, 10);
    let plain = scene.spawn(EntityRec {
        body: Some(PhysicsBody(11)),
        ..Scene::blank(pose_at(0, 0, 0))
    });
    let system = MergeSystem::default();
    let hits = vec![RayHit { entity: center, toi: FX_ONE }];
    let contacts = vec![ContactPair { a: 10, b: 11 }];
    let set = system.run(&scene, &hits, &contacts, true).unwrap();
    assert_eq!(set, vec![center]);
    assert!(!set.contains(&plain));
}

#[test]
fn loaded_mesh_gets_a_body_and_stops_loading() {
    let mut scene = Scene::new();
    let e = scene.spawn(EntityRec {
        loading: true,
        ..Scene::blank(pose_at(2 * FX_ONE, FX_ONE, 0))
    });
    let mut world = MyWorld::default();
    let system = LoadedSystem::default();
    let meshes = vec![LoadedMesh { entity: e, half_height: 32768 }];
    system.run(&mut scene, &mut world, &meshes);
    let i = scene.find_index(e).unwrap();
    assert!(!scene.entries[i].loading);
    let ch = scene.body_for(e).unwrap();
    let bh = world.collider_body_handle(ch).unwrap();
    let p = world.body_pose(bh).unwrap();
    assert_eq!(p.translation, Vec3 { x: 2 * FX_ONE, y: FX_ONE, z: 0 });
}

#[test]
fn already_loaded_entities_are_left_alone() {
    let mut scene = Scene::new();
    let done = scene.spawn(EntityRec { loading: false, ..Scene::blank(pose_at(0, 0, 0)) });
    let physical = scene.spawn(EntityRec {
        loading: true,
        body: Some(PhysicsBody(55)),
        ..Scene::blank(pose_at(0, 0, 0))
    });
    let mut world = MyWorld::default();
    let system = LoadedSystem::default();
    let meshes = vec![
        LoadedMesh { entity: done, half_height: 100 },
        LoadedMesh { entity: physical, half_height: 100 },
        LoadedMesh { entity: 777, half_height: 100 },
    ];
    system.run(&mut scene, &mut world, &meshes);
    assert_eq!(world.bodies.len(), 0);
    assert_eq!(world.colliders.len(), 0);
    let i = scene.find_index(physical).unwrap();
    assert!(scene.entries[i].loading);
    assert_eq!(scene.body_for(physical), Some(55));
}

#[test]
fn world_handles_degrade_to_none_when_stale() {
    let mut world = MyWorld::default();
    let bh = world.add_rigid_body(pose_at(0, 0, 0), true);
    let ch = world.add_collider(bh, 100);
    assert_eq!(world.collider_body_handle(ch), Some(bh));
    assert!(world.remove_collider(ch));
    assert_eq!(world.collider_body_handle(ch), None);
    assert!(!world.remove_collider(ch));
    assert_eq!(world.body_pose(999), None);
    assert_eq!(world.body_linear_velocity(999), None);
    assert!(!world.set_linear_velocity(999, Vec3 { x: 0, y: 0, z: 0 }));
    assert!(!world.remove_force_generator(42));
}
