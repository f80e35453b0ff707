use markov_world::geom::{aabb_blocked_by, Aabb, Vec3i};
use markov_world::island::{try_extend, BlockInstance, Island, StepOutcome};
use markov_world::library::{Module, ModuleLibrary, Transition};
use markov_world::registry::VolumeRegistry;
use markov_world::rng::WorldRandom;
use markov_world::sampler::sample_successor;
use markov_world::world::{GenConfig, WorldGenerator, WorldState};

fn v(x: i64, y: i64, z: i64) -> Vec3i {
    Vec3i { x, y, z }
}

fn point_box() -> Aabb {
    Aabb { center: v(0, 0, 0), half: v(0, 0, 0) }
}

/// One module `A` with no transitions: a dead end.
fn dead_end_library() -> ModuleLibrary {
    ModuleLibrary {
        modules: vec![Module {
            name: String::from("A"),
            aabb: point_box(),
            transitions: Vec::new(),
        }],
    }
}

/// `A -> B` with relative offset `(1, 0, 0)`; point-sized boxes so nothing
/// ever blocks.
fn a_to_b_library() -> ModuleLibrary {
    ModuleLibrary {
        modules: vec![
            Module {
                name: String::from("A"),
                aabb: point_box(),
                transitions: vec![Transition { dest: 1, offset: v(1, 0, 0) }],
            },
            Module {
                name: String::from("B"),
                aabb: point_box(),
                transitions: Vec::new(),
            },
        ],
    }
}

/// A small cyclic library with real extents, for whole-pipeline runs.
fn demo_library() -> ModuleLibrary {
    let unit = Aabb { center: v(0, 0, 0), half: v(2, 2, 2) };
    ModuleLibrary {
        modules: vec![
            Module {
                name: String::from("hall"),
                aabb: unit,
                transitions: vec![
                    Transition { dest: 1, offset: v(4, 0, 0) },
                    Transition { dest: 0, offset: v(0, 0, 4) },
                ],
            },
            Module {
                name: String::from("tower"),
                aabb: unit,
                transitions: vec![
                    Transition { dest: 0, offset: v(-4, 0, 0) },
                    Transition { dest: 1, offset: v(0, 4, 0) },
                ],
            },
        ],
    }
}

fn demo_config() -> GenConfig {
    GenConfig {
        island_count: 4,
        target_min: 2,
        target_max: 6,
        region_extent: 100,
        seed_height: 0,
        tolerance: 1,
    }
}

fn seed_island_at_origin(lib: &ModuleLibrary, registry: &mut VolumeRegistry, target: usize) -> Island {
    let pose = v(0, 0, 0);
    let bbox = lib.modules[0].aabb;
    let vol = Aabb { center: pose.plus(bbox.center), half: bbox.half };
    let h = registry.register(vol);
    Island::new(BlockInstance { module: 0, pose, collider: h }, target)
}

#[test]
fn sample_none_for_dead_end() {
    let lib = dead_end_library();
    for seed in 0..16u64 {
        let mut rng = WorldRandom::from_seed(seed);
        let r = sample_successor(&lib, 0, v(0, 0, 0), &mut rng);
        assert_eq!(r, None);
    }
}

#[test]
fn sample_single_entry_deterministic() {
    let lib = a_to_b_library();
    for seed in 0..16u64 {
        let mut rng = WorldRandom::from_seed(seed);
        let r = sample_successor(&lib, 0, v(5, -3, 7), &mut rng);
        assert_eq!(r, Some((1, v(6, -3, 7))));
    }
}

#[test]
fn exhausted_is_idempotent() {
    let lib = dead_end_library();
    let mut registry = VolumeRegistry::new();
    let mut island = seed_island_at_origin(&lib, &mut registry, 0);
    let mut rng = WorldRandom::from_seed(9);
    let placed_before = island.placed.clone();
    let volumes_before = registry.volumes.clone();
    for _ in 0..3 {
        let r = try_extend(&mut island, &lib, &mut registry, 0, &mut rng);
        assert_eq!(r, StepOutcome::Exhausted);
        assert_eq!(island.placed, placed_before);
        assert_eq!(registry.volumes, volumes_before);
    }
}

#[test]
fn exhausted_consumes_no_draws() {
    let lib = dead_end_library();
    let mut registry = VolumeRegistry::new();
    let mut island = seed_island_at_origin(&lib, &mut registry, 0);
    let mut rng_a = WorldRandom::from_seed(77);
    let mut rng_b = WorldRandom::from_seed(77);
    let r = try_extend(&mut island, &lib, &mut registry, 0, &mut rng_a);
    assert_eq!(r, StepOutcome::Exhausted);
    // The untouched twin generator stays in lockstep: no draw was spent.
    for _ in 0..8 {
        assert_eq!(rng_a.below(1000), rng_b.below(1000));
    }
}

#[test]
fn tick_is_noop_when_all_exhausted() {
    let lib = dead_end_library();
    let mut registry = VolumeRegistry::new();
    let island = seed_island_at_origin(&lib, &mut registry, 0);
    let mut generator = WorldGenerator {
        state: WorldState::Generated,
        config: demo_config(),
        islands: vec![island],
        registry,
    };
    let mut rng_a = WorldRandom::from_seed(3);
    let mut rng_b = WorldRandom::from_seed(3);
    let placed_before = generator.islands[0].placed.clone();
    let volumes_before = generator.registry.volumes.clone();
    generator.add_blocks_to_island(&lib, &mut rng_a);
    assert_eq!(generator.islands[0].placed, placed_before);
    assert_eq!(generator.registry.volumes, volumes_before);
    for _ in 0..8 {
        assert_eq!(rng_a.below(1000), rng_b.below(1000));
    }
}

#[test]
fn dead_end_always_rejects() {
    let lib = dead_end_library();
    let mut registry = VolumeRegistry::new();
    let mut island = seed_island_at_origin(&lib, &mut registry, 5);
    let mut rng = WorldRandom::from_seed(3);
    for _ in 0..50 {
        let r = try_extend(&mut island, &lib, &mut registry, 0, &mut rng);
        assert_eq!(r, StepOutcome::Rejected);
        assert_eq!(island.placed.len(), 1);
    }
}

#[test]
fn extend_places_composed_pose() {
    let lib = a_to_b_library();
    let mut registry = VolumeRegistry::new();
    let mut island = seed_island_at_origin(&lib, &mut registry, 1);
    let mut rng = WorldRandom::from_seed(0);
    let r = try_extend(&mut island, &lib, &mut registry, 0, &mut rng);
    let expected = BlockInstance { module: 1, pose: v(1, 0, 0), collider: 1 };
    assert_eq!(r, StepOutcome::Extended(expected));
    assert_eq!(
        island.placed,
        vec![BlockInstance { module: 0, pose: v(0, 0, 0), collider: 0 }, expected]
    );
    assert_eq!(registry.volumes.len(), 2);
}

#[test]
fn try_extend_rejects_blocked_candidate() {
    // A -> B one step away, but the boxes are so large that the candidate
    // always intersects the seed's volume: a geometric conflict, surfaced
    // as Rejected, forever.
    let big = Aabb { center: v(0, 0, 0), half: v(10, 10, 10) };
    let lib = ModuleLibrary {
        modules: vec![
            Module {
                name: String::from("A"),
                aabb: big,
                transitions: vec![Transition { dest: 1, offset: v(1, 0, 0) }],
            },
            Module { name: String::from("B"), aabb: big, transitions: Vec::new() },
        ],
    };
    let mut registry = VolumeRegistry::new();
    let mut island = seed_island_at_origin(&lib, &mut registry, 4);
    let mut rng = WorldRandom::from_seed(11);
    for _ in 0..25 {
        let r = try_extend(&mut island, &lib, &mut registry, 1, &mut rng);
        assert_eq!(r, StepOutcome::Rejected);
    }
    assert_eq!(island.placed.len(), 1);
    assert_eq!(registry.volumes.len(), 1);
}

#[test]
fn registry_shrinks_candidate_by_tolerance() {
    let mut registry = VolumeRegistry::new();
    registry.register(Aabb { center: v(0, 0, 0), half: v(2, 2, 2) });
    // Touching faces do not block.
    let touching = Aabb { center: v(3, 0, 0), half: v(1, 1, 1) };
    assert!(!registry.is_blocked(&touching, 0));
    // A one-unit overlap blocks at tolerance 0 ...
    let overlapping = Aabb { center: v(2, 0, 0), half: v(1, 1, 1) };
    assert!(registry.is_blocked(&overlapping, 0));
    // ... but not once the candidate is shrunk by 1.
    assert!(!registry.is_blocked(&overlapping, 1));
}

#[test]
fn seeding_counts_and_state() {
    let lib = demo_library();
    let cfg = demo_config();
    let mut generator = WorldGenerator::new(cfg);
    let mut rng = WorldRandom::from_seed(7);
    assert_eq!(generator.state, WorldState::Generating);
    generator.add_island(&lib, &mut rng);
    assert_eq!(generator.state, WorldState::Generated);
    assert_eq!(generator.islands.len(), cfg.island_count);
    assert_eq!(generator.registry.volumes.len(), cfg.island_count);
    for island in &generator.islands {
        assert_eq!(island.placed.len(), 1);
        assert!(cfg.target_min <= island.target && island.target < cfg.target_max);
        let seed = island.placed[0];
        assert!(seed.module < lib.modules.len());
        assert!(-cfg.region_extent <= seed.pose.x && seed.pose.x < cfg.region_extent);
        assert_eq!(seed.pose.y, cfg.seed_height);
        assert!(-cfg.region_extent <= seed.pose.z && seed.pose.z < cfg.region_extent);
    }
}

#[test]
fn add_island_noop_when_generated() {
    let lib = demo_library();
    let mut generator = WorldGenerator::new(demo_config());
    let mut rng = WorldRandom::from_seed(7);
    generator.add_island(&lib, &mut rng);
    let islands_before = generator.islands.len();
    let volumes_before = generator.registry.volumes.clone();
    generator.add_island(&lib, &mut rng);
    assert_eq!(generator.state, WorldState::Generated);
    assert_eq!(generator.islands.len(), islands_before);
    assert_eq!(generator.registry.volumes, volumes_before);
}

fn run_pipeline(seed: u64, ticks: usize) -> WorldGenerator {
    let lib = demo_library();
    let mut generator = WorldGenerator::new(demo_config());
    let mut rng = WorldRandom::from_seed(seed);
    generator.setup_ground(Aabb { center: v(0, -2, 0), half: v(500, 1, 500) });
    generator.add_island(&lib, &mut rng);
    for _ in 0..ticks {
        generator.add_blocks_to_island(&lib, &mut rng);
    }
    generator
}

#[test]
fn same_seed_reproducible() {
    let a = run_pipeline(42, 40);
    let b = run_pipeline(42, 40);
    assert_eq!(a.state, b.state);
    assert_eq!(a.islands.len(), b.islands.len());
    for (ia, ib) in a.islands.iter().zip(b.islands.iter()) {
        assert_eq!(ia.target, ib.target);
        assert_eq!(ia.placed, ib.placed);
    }
    assert_eq!(a.registry.volumes, b.registry.volumes);
}

#[test]
fn growth_monotone_and_capped() {
    let lib = demo_library();
    let mut generator = WorldGenerator::new(demo_config());
    let mut rng = WorldRandom::from_seed(1);
    generator.add_island(&lib, &mut rng);
    let mut lens: Vec<usize> = generator.islands.iter().map(|i| i.placed.len()).collect();
    for _ in 0..60 {
        generator.add_blocks_to_island(&lib, &mut rng);
        for (idx, island) in generator.islands.iter().enumerate() {
            assert!(island.placed.len() >= lens[idx]);
            assert!(island.placed.len() <= island.target + 1);
            lens[idx] = island.placed.len();
        }
    }
}

#[test]
fn committed_volumes_disjoint_on_replay() {
    let generator = run_pipeline(5, 80);
    let volumes = &generator.registry.volumes;
    let mut cleared_seen = 0usize;
    for i in 0..volumes.len() {
        if volumes[i].cleared {
            cleared_seen += 1;
            for j in 0..i {
                assert!(!aabb_blocked_by(&volumes[i].vol, volumes[i].tolerance, &volumes[j].vol));
            }
        }
    }
    assert!(cleared_seen > 0, "the run committed no extension; weak scenario");
}

#[test]
fn rng_below_stays_in_range() {
    let mut rng = WorldRandom::from_seed(1234);
    for _ in 0..200 {
        assert!(rng.below(7) < 7);
    }
    assert_eq!(rng.below(1), 0);
}
