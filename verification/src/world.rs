//! The world generation controller: one-time seeding of a configured number
//! of independent growth processes at random spots of a square region, and
//! the per-tick pass that drives every live process forward by at most one
//! placement. Asset loading is the caller's business: the controller is
//! handed a ready module library and polls nothing itself.

use vstd::prelude::*;

use crate::geom::{world_volume, Aabb, Vec3i, MAX_TARGET, REL_BOUND, SEED_BOUND};
use crate::island::{
    all_candidates_clear, no_dead_ends, try_extend, BlockInstance, Island, StepOutcome,
};
use crate::library::ModuleLibrary;
use crate::registry::{RegisteredVolume, VolumeRegistry};
use crate::rng::WorldRandom;

verus! {

/// The one-directional global generation state: seeding happens in
/// `Generating`; once the processes are seeded the world is `Generated` for
/// the rest of the run.
#[derive(Debug, Clone, Copy, Default, Eq, PartialEq, Hash, Structural)]
pub enum WorldState {
    #[default]
    Generating,
    Generated,
}

/// The configuration surface of the controller: how many islands to seed,
/// the half-open range targets are drawn from, the half-extent of the
/// square seeding region, the ground-plane height seeds sit at, and the
/// overlap tolerance placements are shrunk by.
#[derive(Clone, Copy, PartialEq, Eq, Structural, Debug)]
pub struct GenConfig {
    pub island_count: usize,
    pub target_min: usize,
    pub target_max: usize,
    pub region_extent: i64,
    pub seed_height: i64,
    pub tolerance: i64,
}

impl GenConfig {
    /// Ranges non-empty and every drawn value within the machine bounds the
    /// geometry proofs rest on.
    pub open spec fn wf(self) -> bool {
        &&& self.target_min < self.target_max <= MAX_TARGET
        &&& 1 <= self.region_extent <= SEED_BOUND
        &&& -SEED_BOUND <= self.seed_height <= SEED_BOUND
        &&& 0 <= self.tolerance <= REL_BOUND
    }
}

/// An island as `add_island` seeds it: exactly one placed instance, a
/// target from the configured range, and a seed pose on the ground plane
/// within the seeding region. The seed is committed without an overlap
/// test — deliberately, a known limitation: seeds are free to overlap each
/// other and the terrain.
pub open spec fn seeded_island(isl: Island, lib: ModuleLibrary, cfg: GenConfig) -> bool {
    &&& isl.placed@.len() == 1
    &&& cfg.target_min <= isl.target < cfg.target_max
    &&& isl.placed@[0].module < lib.modules@.len()
    &&& -cfg.region_extent <= isl.placed@[0].pose.x < cfg.region_extent
    &&& isl.placed@[0].pose.y == cfg.seed_height
    &&& -cfg.region_extent <= isl.placed@[0].pose.z < cfg.region_extent
}

/// The controller. It owns the growth processes and the volume registry;
/// the module library is shared, read-only, and passed to each call.
pub struct WorldGenerator {
    pub state: WorldState,
    pub config: GenConfig,
    pub islands: Vec<Island>,
    pub registry: VolumeRegistry,
}

impl WorldGenerator {
    /// Well-formed: the configuration is, the registry is, and every
    /// island is with respect to the library.
    pub open spec fn wf(self, lib: ModuleLibrary) -> bool {
        &&& self.config.wf()
        &&& self.registry.wf()
        &&& forall|i: int| 0 <= i < self.islands@.len() ==> (#[trigger] self.islands@[i]).wf(lib)
    }

    /// Every placed instance's collider handle points into the registry,
    /// at the entry holding exactly that instance's world volume; and any
    /// instance beyond an island's seed sits in a cleared entry committed
    /// with the configured tolerance. This is what makes a replay of the
    /// overlap predicate against the final state meaningful.
    pub open spec fn islands_linked(self, lib: ModuleLibrary) -> bool {
        forall|i: int, j: int|
            0 <= i < self.islands@.len() && 0 <= j < self.islands@[i].placed@.len() ==> {
                let inst = (#[trigger] self.islands@[i].placed@[j]);
                &&& inst.collider < self.registry.volumes@.len()
                &&& self.registry.volumes@[inst.collider as int].vol == world_volume(
                    lib.modules@[inst.module as int].aabb,
                    inst.pose,
                )
                &&& j >= 1 ==> {
                    &&& self.registry.volumes@[inst.collider as int].cleared
                    &&& self.registry.volumes@[inst.collider as int].tolerance
                        == self.config.tolerance
                }
            }
    }

    /// A fresh controller: nothing seeded, nothing registered, generating.
    pub fn new(config: GenConfig) -> (r: WorldGenerator)
        requires
            config.wf(),
        ensures
            r.state == WorldState::Generating,
            r.config == config,
            r.islands@.len() == 0,
            r.registry.volumes@.len() == 0,
            forall|lib: ModuleLibrary| r.wf(lib),
            forall|lib: ModuleLibrary| r.islands_linked(lib),
    {
        WorldGenerator {
            state: WorldState::Generating,
            config,
            islands: Vec::new(),
            registry: VolumeRegistry::new(),
        }
    }

    /// Register the static terrain the world starts with, such as the
    /// ground plane, so placements collide against it. Terrain is
    /// committed without an overlap test.
    pub fn setup_ground(&mut self, ground: Aabb) -> (h: usize)
        requires
            old(self).registry.wf(),
            crate::geom::vol_wf(ground),
        ensures
            final(self).state == old(self).state,
            final(self).config == old(self).config,
            final(self).islands == old(self).islands,
            final(self).registry.wf(),
            h == old(self).registry.volumes@.len(),
            final(self).registry.volumes@ == old(self).registry.volumes@.push(
                (RegisteredVolume { vol: ground, cleared: false, tolerance: 0 }),
            ),
            forall|lib: ModuleLibrary|
                old(self).islands_linked(lib) ==> #[trigger] final(self).islands_linked(lib),
    {
        self.registry.register(ground)
    }

    /// One-time seeding pass, run while `Generating` once the library data
    /// is available: for each of the configured number of islands, draw a
    /// seed module uniformly from the library, a pose on the ground plane
    /// uniformly within the seeding region, and a target size uniformly
    /// from the configured range; commit the seed unconditionally and
    /// create its growth process. Then the world is `Generated`. A pass in
    /// the `Generated` state changes nothing.
    pub fn add_island(&mut self, lib: &ModuleLibrary, rng: &mut WorldRandom)
        requires
            lib.wf(),
            lib.modules@.len() >= 1,
            old(self).wf(*lib),
            old(self).islands_linked(*lib),
        ensures
            final(self).wf(*lib),
            final(self).islands_linked(*lib),
            final(self).config == old(self).config,
            old(self).state == WorldState::Generated ==> *final(self) == *old(self),
            old(self).state == WorldState::Generating ==> {
                &&& final(self).state == (if old(self).config.island_count > 0 {
                    WorldState::Generated
                } else {
                    WorldState::Generating
                })
                &&& final(self).islands@.len() == old(self).islands@.len()
                    + old(self).config.island_count
                &&& final(self).registry.volumes@.len() == old(self).registry.volumes@.len()
                    + old(self).config.island_count
                &&& forall|n: int|
                    0 <= n < old(self).islands@.len() ==> final(self).islands@[n] == (
                    #[trigger] old(self).islands@[n])
                &&& old(self).registry.volumes@.is_prefix_of(final(self).registry.volumes@)
                &&& forall|n: int|
                    old(self).islands@.len() <= n < final(self).islands@.len() ==> {
                        let isl = #[trigger] final(self).islands@[n];
                        let seed = isl.placed@[0];
                        &&& seeded_island(isl, *lib, old(self).config)
                        &&& seed.collider == old(self).registry.volumes@.len() + n
                            - old(self).islands@.len()
                        &&& final(self).registry.volumes@[seed.collider as int] == (
                        RegisteredVolume {
                            vol: world_volume(lib.modules@[seed.module as int].aabb, seed.pose),
                            cleared: false,
                            tolerance: 0,
                        })
                    }
            },
    {
        if self.state == WorldState::Generated {
            return;
        }
        let count = self.config.island_count;
        let ghost old_self = *self;
        let mut made: usize = 0;
        while made < count
            invariant
                lib.wf(),
                lib.modules@.len() >= 1,
                old_self.wf(*lib),
                made <= count,
                count == old_self.config.island_count,
                self.state == old_self.state,
                self.config == old_self.config,
                self.registry.wf(),
                self.islands_linked(*lib),
                self.islands@.len() == old_self.islands@.len() + made,
                self.registry.volumes@.len() == old_self.registry.volumes@.len() + made,
                old_self.registry.volumes@.is_prefix_of(self.registry.volumes@),
                forall|n: int|
                    0 <= n < old_self.islands@.len() ==> self.islands@[n] == (
                    #[trigger] old_self.islands@[n]),
                forall|n: int|
                    0 <= n < self.islands@.len() ==> (#[trigger] self.islands@[n]).wf(*lib),
                forall|n: int|
                    old_self.islands@.len() <= n < self.islands@.len() ==> {
                        let isl = #[trigger] self.islands@[n];
                        let seed = isl.placed@[0];
                        &&& seeded_island(isl, *lib, old_self.config)
                        &&& seed.collider == old_self.registry.volumes@.len() + (n
                            - old_self.islands@.len())
                        &&& self.registry.volumes@[seed.collider as int] == (RegisteredVolume {
                            vol: world_volume(lib.modules@[seed.module as int].aabb, seed.pose),
                            cleared: false,
                            tolerance: 0,
                        })
                    },
            decreases count - made,
        {
            let m = rng.below(lib.module_count());
            let extent = self.config.region_extent;
            let span = (2 * extent) as usize;
            let dx = rng.below(span);
            let x = -extent + (dx as i64);
            let dz = rng.below(span);
            let z = -extent + (dz as i64);
            let pose = Vec3i { x, y: self.config.seed_height, z };
            let t = self.config.target_min + rng.below(
                self.config.target_max - self.config.target_min,
            );
            let bbox = lib.lookup_bbox(m);
            let center = pose.plus(bbox.center);
            let vol = Aabb { center, half: bbox.half };
            proof {
                assert(vol == world_volume(lib.modules@[m as int].aabb, pose));
            }
            let h = self.registry.register(vol);
            let seed = BlockInstance { module: m, pose, collider: h };
            let island = Island::new(seed, t);
            self.islands.push(island);
            made = made + 1;
        }
        if count > 0 {
            self.state = WorldState::Generated;
        }
    }

    /// The per-tick driving pass: every growth process is offered one step
    /// attempt. Exhausted processes are left untouched, so once all are
    /// done the pass is a no-op scan; there is no further stop condition.
    pub fn add_blocks_to_island(&mut self, lib: &ModuleLibrary, rng: &mut WorldRandom)
        requires
            lib.wf(),
            old(self).wf(*lib),
            old(self).islands_linked(*lib),
        ensures
            final(self).wf(*lib),
            final(self).islands_linked(*lib),
            final(self).state == old(self).state,
            final(self).config == old(self).config,
            final(self).islands@.len() == old(self).islands@.len(),
            old(self).registry.volumes@.is_prefix_of(final(self).registry.volumes@),
            forall|i: int|
                0 <= i < old(self).islands@.len() ==> {
                    let before = #[trigger] old(self).islands@[i];
                    let after = final(self).islands@[i];
                    &&& after.target == before.target
                    &&& before.placed@.is_prefix_of(after.placed@)
                    &&& after.placed@.len() <= before.target + 1
                    &&& after.placed@.len() <= before.placed@.len() + 1
                },
            forall|m: int|
                (0 <= m < old(self).islands@.len()
                    && (#[trigger] old(self).islands@[m]).placed@.len()
                        <= old(self).islands@[m].target
                    && no_dead_ends(old(self).islands@[m], *lib)
                    && all_candidates_clear(
                        old(self).islands@[m],
                        *lib,
                        old(self).config.tolerance as int,
                        final(self).registry.volumes@,
                    ))
                    ==> final(self).islands@[m].placed@.len()
                        == old(self).islands@[m].placed@.len() + 1,
            (forall|m: int|
                0 <= m < old(self).islands@.len()
                    ==> (#[trigger] old(self).islands@[m]).placed@.len()
                        > old(self).islands@[m].target) ==> {
                &&& final(self).islands@ == old(self).islands@
                &&& final(self).registry == old(self).registry
                &&& *final(rng) == *old(rng)
            },
    {
        let n = self.islands.len();
        let tolerance = self.config.tolerance;
        let ghost old_self = *self;
        let mut i: usize = 0;
        while i < n
            invariant
                lib.wf(),
                old_self.wf(*lib),
                i <= n,
                n == old_self.islands@.len(),
                tolerance == old_self.config.tolerance,
                self.state == old_self.state,
                self.config == old_self.config,
                self.registry.wf(),
                self.islands_linked(*lib),
                self.islands@.len() == n,
                old_self.registry.volumes@.is_prefix_of(self.registry.volumes@),
                forall|j: int|
                    0 <= j < self.islands@.len() ==> (#[trigger] self.islands@[j]).wf(*lib),
                forall|j: int|
                    i <= j < n ==> self.islands@[j] == (#[trigger] old_self.islands@[j]),
                forall|j: int|
                    0 <= j < i ==> {
                        let before = #[trigger] old_self.islands@[j];
                        let after = self.islands@[j];
                        &&& after.target == before.target
                        &&& before.placed@.is_prefix_of(after.placed@)
                        &&& after.placed@.len() <= before.target + 1
                        &&& after.placed@.len() <= before.placed@.len() + 1
                    },
                forall|j: int|
                    (0 <= j < i && (#[trigger] old_self.islands@[j]).placed@.len()
                        <= old_self.islands@[j].target && no_dead_ends(old_self.islands@[j], *lib)
                        && all_candidates_clear(
                        old_self.islands@[j],
                        *lib,
                        tolerance as int,
                        self.registry.volumes@,
                    )) ==> self.islands@[j].placed@.len() == old_self.islands@[j].placed@.len()
                        + 1,
                (forall|m: int|
                    0 <= m < n ==> (#[trigger] old_self.islands@[m]).placed@.len()
                        > old_self.islands@[m].target) ==> {
                    &&& self.islands@ == old_self.islands@
                    &&& self.registry == old_self.registry
                    &&& *rng == *old(rng)
                },
            decreases n - i,
        {
            let ghost reg0 = self.registry;
            let mut isl = self.islands.remove(i);
            let ghost isl0 = isl;
            let outcome = try_extend(&mut isl, lib, &mut self.registry, tolerance, rng);
            self.islands.insert(i, isl);
            proof {
                assert(isl0 == old_self.islands@[i as int]);
                assert forall|j: int|
                    (0 <= j < i + 1 && (#[trigger] old_self.islands@[j]).placed@.len()
                        <= old_self.islands@[j].target && no_dead_ends(old_self.islands@[j], *lib)
                        && all_candidates_clear(
                        old_self.islands@[j],
                        *lib,
                        tolerance as int,
                        self.registry.volumes@,
                    )) implies self.islands@[j].placed@.len()
                    == old_self.islands@[j].placed@.len() + 1 by {
                    crate::island::lemma_clear_of_prefix(
                        old_self.islands@[j],
                        *lib,
                        tolerance as int,
                        reg0.volumes@,
                        self.registry.volumes@,
                    );
                    if j == i as int {
                        assert(all_candidates_clear(isl0, *lib, tolerance as int, reg0.volumes@));
                        assert(outcome is Extended);
                        assert(self.islands@[j] == isl);
                    }
                }
                if forall|m: int|
                    0 <= m < n ==> (#[trigger] old_self.islands@[m]).placed@.len()
                        > old_self.islands@[m].target {
                    assert(isl0.placed@.len() > isl0.target);
                    assert(outcome == StepOutcome::Exhausted);
                    assert(self.islands@ =~= old_self.islands@);
                }
            }
            i = i + 1;
        }
    }
}

/// Law: replaying the overlap predicate against the final placed set
/// confirms every extension commit. For any placed instance beyond an
/// island's seed, its world volume — shrunk by the configured tolerance —
/// does not intersect the volume of anything committed strictly earlier:
/// not other instances, not seeds, not terrain. Seeds themselves are
/// exempt by design: they are committed without an overlap test.
pub proof fn lemma_placed_instances_disjoint(
    generator: WorldGenerator,
    lib: ModuleLibrary,
    i: int,
    j: int,
    c: int,
)
    requires
        generator.wf(lib),
        generator.islands_linked(lib),
        0 <= i < generator.islands@.len(),
        1 <= j < generator.islands@[i].placed@.len(),
        0 <= c < generator.islands@[i].placed@[j].collider,
    ensures
        !crate::geom::blocked_by(
            world_volume(
                lib.modules@[generator.islands@[i].placed@[j].module as int].aabb,
                generator.islands@[i].placed@[j].pose,
            ),
            generator.config.tolerance as int,
            generator.registry.volumes@[c].vol,
        ),
{
    let inst = generator.islands@[i].placed@[j];
    assert(generator.registry.volumes@[inst.collider as int].cleared);
    crate::registry::lemma_cleared_volume_disjoint(generator.registry, inst.collider as int, c);
}

} // verus!
