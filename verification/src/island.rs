//! Growth processes ("islands"): an incremental, resumable generation task
//! with a target size and the ordered list of instances it has placed. One
//! step picks a random placed instance, samples a successor placement for
//! it, tests the candidate volume against everything committed so far, and
//! commits it only if clear.

use vstd::prelude::*;

use crate::geom::{
    blocked_by, is_sum, pose_limit, vec_sum, world_volume, Aabb, Vec3i, MAX_POSE, MAX_TARGET,
    REL_BOUND,
};
use crate::library::{ModuleLibrary, Transition};
use crate::registry::{RegisteredVolume, VolumeRegistry};
use crate::rng::WorldRandom;
use crate::sampler::sample_successor;

verus! {

/// A committed module placement: the module's library index, its world
/// pose, and the registry handle of its collidable volume. Never mutated
/// after creation.
#[derive(Clone, Copy, PartialEq, Eq, Structural, Debug)]
pub struct BlockInstance {
    pub module: usize,
    pub pose: Vec3i,
    pub collider: usize,
}

/// The outcome of one growth step. `Rejected` is a normal outcome, not an
/// error: a dead-end module or a blocked candidate simply leaves the
/// process unchanged until a later tick.
#[derive(Clone, Copy, PartialEq, Eq, Structural, Debug)]
pub enum StepOutcome {
    Extended(BlockInstance),
    Rejected,
    Exhausted,
}

/// One growth process. It owns the instances it has produced, in creation
/// order, and stops growing once their number exceeds the target — so a
/// finished process holds `target + 1` instances.
pub struct Island {
    pub target: usize,
    pub placed: Vec<BlockInstance>,
}

impl Island {
    /// Well-formed with respect to a library: the target respects the
    /// machine bound, the process holds its seed and at most `target + 1`
    /// instances, every instance names a module of the library, and the
    /// pose of the instance at index `j` stays within `pose_limit(j)`.
    pub open spec fn wf(self, lib: ModuleLibrary) -> bool {
        &&& self.target <= MAX_TARGET
        &&& 1 <= self.placed@.len() <= self.target + 1
        &&& forall|j: int| 0 <= j < self.placed@.len() ==> {
            &&& (#[trigger] self.placed@[j]).module < lib.modules@.len()
            &&& self.placed@[j].pose.bounded(pose_limit(j))
        }
    }

    /// A fresh process holding exactly its seed instance.
    pub fn new(seed: BlockInstance, target: usize) -> (r: Island)
        ensures
            r.target == target,
            r.placed@.len() == 1,
            r.placed@[0] == seed,
    {
        Island { target, placed: vec![seed] }
    }
}

/// The world volume that extending `source` by the transition `entry`
/// would occupy: the destination's box at the composed pose.
pub open spec fn candidate_volume(lib: ModuleLibrary, source: BlockInstance, entry: Transition) -> Aabb {
    world_volume(lib.modules@[entry.dest as int].aabb, vec_sum(source.pose, entry.offset))
}

/// No placed instance of the process is a dead end: every module placed so
/// far has at least one transition entry to offer.
pub open spec fn no_dead_ends(isl: Island, lib: ModuleLibrary) -> bool {
    forall|i: int|
        0 <= i < isl.placed@.len()
            ==> lib.modules@[(#[trigger] isl.placed@[i]).module as int].transitions@.len() >= 1
}

/// Every candidate any draw could produce — any transition entry of any
/// placed instance — is, shrunk by the tolerance, clear of every volume in
/// `vols`. Under this, a step attempt has nothing to reject.
pub open spec fn all_candidates_clear(
    isl: Island,
    lib: ModuleLibrary,
    tol: int,
    vols: Seq<RegisteredVolume>,
) -> bool {
    forall|i: int, k: int, j: int|
        0 <= i < isl.placed@.len() && 0 <= k
            < lib.modules@[isl.placed@[i].module as int].transitions@.len() && 0 <= j < vols.len()
            ==> !blocked_by(
            #[trigger] candidate_volume(
                lib,
                isl.placed@[i],
                lib.modules@[isl.placed@[i].module as int].transitions@[k],
            ),
            tol,
            (#[trigger] vols[j]).vol,
        )
}

/// Clearance against a longer, append-only registry implies clearance
/// against any prefix of it.
pub(crate) proof fn lemma_clear_of_prefix(
    isl: Island,
    lib: ModuleLibrary,
    tol: int,
    vols1: Seq<RegisteredVolume>,
    vols2: Seq<RegisteredVolume>,
)
    requires
        all_candidates_clear(isl, lib, tol, vols2),
        vols1.is_prefix_of(vols2),
    ensures
        all_candidates_clear(isl, lib, tol, vols1),
{
    assert forall|i: int, k: int, j: int|
        0 <= i < isl.placed@.len() && 0 <= k
            < lib.modules@[isl.placed@[i].module as int].transitions@.len() && 0 <= j
            < vols1.len() implies !blocked_by(
        #[trigger] candidate_volume(
            lib,
            isl.placed@[i],
            lib.modules@[isl.placed@[i].module as int].transitions@[k],
        ),
        tol,
        (#[trigger] vols1[j]).vol,
    ) by {
        assert(vols1[j] == vols2[j]);
    }
}

/// Commit step for a sampled candidate: build the candidate's world volume,
/// test it — shrunk by the tolerance — against every committed volume, and
/// either reject or commit it. Exact for every value of the candidate, so
/// the random draw behind `dest` and `pose` carries no unproved logic.
pub fn commit_candidate(
    island: &mut Island,
    lib: &ModuleLibrary,
    registry: &mut VolumeRegistry,
    tolerance: i64,
    dest: usize,
    pose: Vec3i,
) -> (r: StepOutcome)
    requires
        lib.wf(),
        old(island).wf(*lib),
        old(registry).wf(),
        0 <= tolerance <= REL_BOUND,
        old(island).placed@.len() <= old(island).target,
        dest < lib.modules@.len(),
        pose.bounded(pose_limit(old(island).placed@.len() as int)),
    ensures
        final(island).wf(*lib),
        final(registry).wf(),
        final(island).target == old(island).target,
        ({
            let vol = world_volume(lib.modules@[dest as int].aabb, pose);
            let blocked = exists|j: int|
                0 <= j < old(registry).volumes@.len() && blocked_by(
                    vol,
                    tolerance as int,
                    (#[trigger] old(registry).volumes@[j]).vol,
                );
            if blocked {
                &&& r == StepOutcome::Rejected
                &&& *final(island) == *old(island)
                &&& *final(registry) == *old(registry)
            } else {
                let inst = (BlockInstance {
                    module: dest,
                    pose,
                    collider: old(registry).volumes@.len() as usize,
                });
                &&& r == StepOutcome::Extended(inst)
                &&& inst.collider == old(registry).volumes@.len()
                &&& final(island).placed@ == old(island).placed@.push(inst)
                &&& final(registry).volumes@ == old(registry).volumes@.push(
                    (RegisteredVolume { vol, cleared: true, tolerance }),
                )
            }
        }),
{
    let bbox = lib.lookup_bbox(dest);
    let center = pose.plus(bbox.center);
    let vol = Aabb { center, half: bbox.half };
    proof {
        assert(vol == world_volume(lib.modules@[dest as int].aabb, pose));
    }
    if registry.is_blocked(&vol, tolerance) {
        StepOutcome::Rejected
    } else {
        let h = registry.register_cleared(vol, tolerance);
        let inst = BlockInstance { module: dest, pose, collider: h };
        island.placed.push(inst);
        StepOutcome::Extended(inst)
    }
}

/// One step attempt on a growth process, as driven each tick:
///
/// 1. a process that has exceeded its target is `Exhausted` and is left
///    untouched;
/// 2. otherwise one placed instance is drawn uniformly as the source;
/// 3. a successor placement is sampled for it — a dead end rejects;
/// 4. the candidate volume, shrunk by the tolerance, is tested against
///    every committed volume — a hit rejects, with no retry this step;
/// 5. otherwise the instance is committed: registered as a cleared volume
///    and appended to the process.
pub fn try_extend(
    island: &mut Island,
    lib: &ModuleLibrary,
    registry: &mut VolumeRegistry,
    tolerance: i64,
    rng: &mut WorldRandom,
) -> (r: StepOutcome)
    requires
        lib.wf(),
        old(island).wf(*lib),
        old(registry).wf(),
        0 <= tolerance <= REL_BOUND,
    ensures
        final(island).wf(*lib),
        final(registry).wf(),
        final(island).target == old(island).target,
        final(island).placed@.len() >= old(island).placed@.len(),
        final(island).placed@.len() <= old(island).target + 1,
        old(island).placed@.is_prefix_of(final(island).placed@),
        old(registry).volumes@.is_prefix_of(final(registry).volumes@),
        (r == StepOutcome::Exhausted) <==> old(island).placed@.len() > old(island).target,
        (r == StepOutcome::Exhausted || r == StepOutcome::Rejected) ==> {
            &&& *final(island) == *old(island)
            &&& *final(registry) == *old(registry)
        },
        r == StepOutcome::Exhausted ==> *final(rng) == *old(rng),
        (old(island).placed@.len() <= old(island).target && no_dead_ends(*old(island), *lib)
            && all_candidates_clear(
            *old(island),
            *lib,
            tolerance as int,
            old(registry).volumes@,
        )) ==> r is Extended,
        r matches StepOutcome::Extended(inst) ==> {
            &&& final(island).placed@ == old(island).placed@.push(inst)
            &&& inst.collider == old(registry).volumes@.len()
            &&& exists|i: int, k: int| {
                &&& 0 <= i < old(island).placed@.len()
                &&& 0 <= k
                    < lib.modules@[old(island).placed@[i].module as int].transitions@.len()
                &&& inst.module == (#[trigger] lib.modules@[old(island).placed@[i].module as int].transitions@[k]).dest
                &&& is_sum(
                    inst.pose,
                    old(island).placed@[i].pose,
                    lib.modules@[old(island).placed@[i].module as int].transitions@[k].offset,
                )
            }
            &&& final(registry).volumes@ == old(registry).volumes@.push(
                (RegisteredVolume {
                    vol: world_volume(lib.modules@[inst.module as int].aabb, inst.pose),
                    cleared: true,
                    tolerance,
                }),
            )
            &&& forall|j: int|
                0 <= j < old(registry).volumes@.len() ==> !blocked_by(
                    world_volume(lib.modules@[inst.module as int].aabb, inst.pose),
                    tolerance as int,
                    (#[trigger] old(registry).volumes@[j]).vol,
                )
        },
        (old(island).placed@.len() <= old(island).target && forall|j: int|
            0 <= j < old(island).placed@.len()
                ==> lib.modules@[(#[trigger] old(island).placed@[j]).module as int].transitions@.len()
                == 0) ==> r == StepOutcome::Rejected,
{
    if island.placed.len() > island.target {
        return StepOutcome::Exhausted;
    }
    let idx = rng.below(island.placed.len());
    let source = island.placed[idx];
    proof {
        assert(source.pose.bounded(MAX_POSE as int));
    }
    match sample_successor(lib, source.module, source.pose, rng) {
        None => {
            proof {
                assert(!no_dead_ends(*old(island), *lib)) by {
                    assert(old(island).placed@[idx as int].module == source.module);
                }
            }
            StepOutcome::Rejected
        },
        Some((dest, pose)) => {
            let ghost k = choose|k: int|
                0 <= k < lib.modules@[source.module as int].transitions@.len() && {
                    let entry = #[trigger] lib.modules@[source.module as int].transitions@[k];
                    dest == entry.dest && is_sum(pose, source.pose, entry.offset)
                };
            proof {
                assert(lib.modules@[source.module as int].transitions@[k].offset.bounded(
                    REL_BOUND as int,
                ));
                assert(pose.bounded(pose_limit(idx as int) + REL_BOUND));
                assert(pose.bounded(pose_limit(island.placed@.len() as int)));
            }
            let outcome = commit_candidate(island, lib, registry, tolerance, dest, pose);
            proof {
                match outcome {
                    StepOutcome::Extended(inst) => {
                        assert(old(island).placed@[idx as int] == source);
                        assert(inst.module == lib.modules@[source.module as int].transitions@[k].dest);
                        assert(is_sum(
                            inst.pose,
                            old(island).placed@[idx as int].pose,
                            lib.modules@[old(island).placed@[idx as int].module as int].transitions@[k].offset,
                        ));
                    },
                    _ => {},
                }
                if old(island).placed@.len() <= old(island).target && no_dead_ends(
                    *old(island),
                    *lib,
                ) && all_candidates_clear(
                    *old(island),
                    *lib,
                    tolerance as int,
                    old(registry).volumes@,
                ) {
                    let entry = lib.modules@[source.module as int].transitions@[k];
                    assert(vec_sum(source.pose, entry.offset) == pose);
                    assert(candidate_volume(*lib, source, entry) == world_volume(
                        lib.modules@[dest as int].aabb,
                        pose,
                    ));
                    assert forall|j: int| 0 <= j < old(registry).volumes@.len() implies !blocked_by(
                        world_volume(lib.modules@[dest as int].aabb, pose),
                        tolerance as int,
                        old(registry).volumes@[j].vol,
                    ) by {
                        assert(old(island).placed@[idx as int] == source);
                        assert(!blocked_by(
                            candidate_volume(
                                *lib,
                                old(island).placed@[idx as int],
                                lib.modules@[old(island).placed@[idx as int].module as int].transitions@[k],
                            ),
                            tolerance as int,
                            old(registry).volumes@[j].vol,
                        ));
                    }
                    assert(outcome is Extended);
                }
            }
            outcome
        },
    }
}

/// Law: a growth process never shrinks past its cap — a well-formed
/// process holds at least its seed and at most `target + 1` instances.
pub proof fn lemma_island_size_bounded(island: Island, lib: ModuleLibrary)
    requires
        island.wf(lib),
    ensures
        1 <= island.placed@.len() <= island.target + 1,
{
}

/// Law: growth composes across ticks. Each step attempt leaves the old
/// placements a prefix of the new ones, and prefixes chain — so over any
/// number of ticks a process's placement list only ever grows, and its
/// length is non-decreasing.
pub proof fn lemma_growth_monotone(
    a: Seq<BlockInstance>,
    b: Seq<BlockInstance>,
    c: Seq<BlockInstance>,
)
    requires
        a.is_prefix_of(b),
        b.is_prefix_of(c),
    ensures
        a.is_prefix_of(c),
        a.len() <= c.len(),
{
    assert(a =~= c.subrange(0, a.len() as int));
}

} // verus!
