use markov_world::geom::{Aabb, Vec3i};
use markov_world::island::{commit_candidate, BlockInstance, Island, StepOutcome};
use markov_world::library::{Module, ModuleLibrary, Transition};
use markov_world::registry::VolumeRegistry;
use markov_world::sampler::successor_at;

fn w(x: i64, y: i64, z: i64) -> Vec3i {
    Vec3i { x, y, z }
}

fn two_module_library() -> ModuleLibrary {
    ModuleLibrary {
        modules: vec![
            Module {
                name: String::from("base"),
                aabb: Aabb { center: w(0, 1, 0), half: w(2, 1, 2) },
                transitions: vec![
                    Transition { dest: 1, offset: w(4, 0, 0) },
                    Transition { dest: 0, offset: w(0, 0, -4) },
                ],
            },
            Module {
                name: String::from("roof"),
                aabb: Aabb { center: w(0, 0, 0), half: w(1, 1, 1) },
                transitions: Vec::new(),
            },
        ],
    }
}

#[test]
fn library_lookups_return_stored_data() {
    let lib = two_module_library();
    assert_eq!(lib.module_count(), 2);
    assert_eq!(lib.lookup_bbox(0), Aabb { center: w(0, 1, 0), half: w(2, 1, 2) });
    assert_eq!(lib.lookup_bbox(1), Aabb { center: w(0, 0, 0), half: w(1, 1, 1) });
    let transitions = lib.lookup_transitions(0);
    assert_eq!(transitions.len(), 2);
    assert_eq!(transitions[0], Transition { dest: 1, offset: w(4, 0, 0) });
    assert_eq!(transitions[1], Transition { dest: 0, offset: w(0, 0, -4) });
    assert!(lib.lookup_transitions(1).is_empty());
}

#[test]
fn successor_at_composes_each_entry() {
    let lib = two_module_library();
    let pose = w(10, 0, -2);
    assert_eq!(successor_at(&lib, 0, pose, 0), (1, w(14, 0, -2)));
    assert_eq!(successor_at(&lib, 0, pose, 1), (0, w(10, 0, -6)));
}

#[test]
fn island_new_holds_seed() {
    let seed = BlockInstance { module: 0, pose: w(1, 2, 3), collider: 7 };
    let island = Island::new(seed, 12);
    assert_eq!(island.target, 12);
    assert_eq!(island.placed, vec![seed]);
}

#[test]
fn registry_hands_out_sequential_handles() {
    let mut registry = VolumeRegistry::new();
    assert_eq!(registry.len(), 0);
    let a = registry.register(Aabb { center: w(0, 0, 0), half: w(1, 1, 1) });
    let b = registry.register(Aabb { center: w(9, 0, 0), half: w(1, 1, 1) });
    assert_eq!((a, b), (0, 1));
    assert_eq!(registry.len(), 2);
    assert!(!registry.volumes[0].cleared);
}

#[test]
fn commit_candidate_commits_when_clear() {
    let lib = two_module_library();
    let mut registry = VolumeRegistry::new();
    let seed = BlockInstance { module: 0, pose: w(0, 0, 0), collider: 0 };
    registry.register(Aabb { center: w(0, 1, 0), half: w(2, 1, 2) });
    let mut island = Island::new(seed, 3);
    let r = commit_candidate(&mut island, &lib, &mut registry, 1, 1, w(4, 0, 0));
    let inst = BlockInstance { module: 1, pose: w(4, 0, 0), collider: 1 };
    assert_eq!(r, StepOutcome::Extended(inst));
    assert_eq!(island.placed, vec![seed, inst]);
    assert!(registry.volumes[1].cleared);
    assert_eq!(registry.volumes[1].tolerance, 1);
    // The committed world volume carries the roof's box at the new pose.
    assert_eq!(registry.volumes[1].vol, Aabb { center: w(4, 0, 0), half: w(1, 1, 1) });
}

#[test]
fn commit_candidate_rejects_when_blocked() {
    let lib = two_module_library();
    let mut registry = VolumeRegistry::new();
    let seed = BlockInstance { module: 0, pose: w(0, 0, 0), collider: 0 };
    registry.register(Aabb { center: w(0, 1, 0), half: w(2, 1, 2) });
    let mut island = Island::new(seed, 3);
    // A candidate right on top of the seed volume.
    let r = commit_candidate(&mut island, &lib, &mut registry, 0, 1, w(0, 1, 0));
    assert_eq!(r, StepOutcome::Rejected);
    assert_eq!(island.placed.len(), 1);
    assert_eq!(registry.len(), 1);
}
