//! The placement sampler: given an already-placed module and its pose, draw
//! one learned transition entry and compute the candidate successor's world
//! pose by composing the source pose with the entry's relative offset.

use vstd::prelude::*;

use crate::geom::{is_sum, Vec3i, MAX_POSE, REL_BOUND};
use crate::library::ModuleLibrary;
use crate::rng::WorldRandom;

verus! {

/// The successor described by entry `k` of the source module's transition
/// list: the entry's destination, posed at the source pose composed with
/// the entry's relative offset. This is the deterministic part of the
/// sampler; it is exact for every choice of `k`.
pub fn successor_at(
    lib: &ModuleLibrary,
    source_module: usize,
    source_pose: Vec3i,
    k: usize,
) -> (r: (usize, Vec3i))
    requires
        lib.wf(),
        source_module < lib.modules@.len(),
        k < lib.modules@[source_module as int].transitions@.len(),
        source_pose.bounded(MAX_POSE as int),
    ensures
        r.0 == lib.modules@[source_module as int].transitions@[k as int].dest,
        is_sum(
            r.1,
            source_pose,
            lib.modules@[source_module as int].transitions@[k as int].offset,
        ),
        r.0 < lib.modules@.len(),
        r.1.bounded(MAX_POSE + REL_BOUND),
{
    let entry = lib.lookup_transitions(source_module)[k];
    let pose = source_pose.plus(entry.offset);
    (entry.dest, pose)
}

/// Draw a successor for the given source module and pose: `None` exactly
/// when the module has no transition entries (a dead end); otherwise one
/// entry, drawn uniformly, composed into world space. With a single entry
/// the result is that entry, whatever the random source holds.
pub fn sample_successor(
    lib: &ModuleLibrary,
    source_module: usize,
    source_pose: Vec3i,
    rng: &mut WorldRandom,
) -> (r: Option<(usize, Vec3i)>)
    requires
        lib.wf(),
        source_module < lib.modules@.len(),
        source_pose.bounded(MAX_POSE as int),
    ensures
        r is None <==> lib.modules@[source_module as int].transitions@.len() == 0,
        r matches Some(p) ==> {
            &&& exists|k: int|
                0 <= k < lib.modules@[source_module as int].transitions@.len() && {
                    let entry = #[trigger] lib.modules@[source_module as int].transitions@[k];
                    p.0 == entry.dest && is_sum(p.1, source_pose, entry.offset)
                }
            &&& p.0 < lib.modules@.len()
            &&& p.1.bounded(MAX_POSE + REL_BOUND)
        },
        lib.modules@[source_module as int].transitions@.len() == 1 ==> {
            let entry = lib.modules@[source_module as int].transitions@[0];
            r matches Some(p) && p.0 == entry.dest && is_sum(p.1, source_pose, entry.offset)
        },
{
    let entries = lib.lookup_transitions(source_module);
    let n = entries.len();
    if n == 0 {
        return None;
    }
    let k = rng.below(n);
    let succ = successor_at(lib, source_module, source_pose, k);
    Some(succ)
}

} // verus!
