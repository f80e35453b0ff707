//! The registry of collidable volumes: the append-only record the overlap
//! queries run against. Seeds and terrain register unchecked; an extension
//! registers only after its shrunk volume was found clear of everything
//! already present, and the registry's invariant keeps that fact for every
//! cleared entry, in commit order.

use vstd::prelude::*;

use crate::geom::{aabb_blocked_by, blocked_by, vol_wf, Aabb, REL_BOUND};

verus! {

/// One committed volume. `cleared` records whether the commit was guarded
/// by an overlap test; `tolerance` is the shrink that test used. Seeds and
/// terrain carry `cleared == false`.
#[derive(Clone, Copy, PartialEq, Eq, Structural, Debug)]
pub struct RegisteredVolume {
    pub vol: Aabb,
    pub cleared: bool,
    pub tolerance: i64,
}

/// The append-only registry of committed volumes, in commit order. A
/// volume's registry index is the opaque collider handle the rest of the
/// core holds.
pub struct VolumeRegistry {
    pub volumes: Vec<RegisteredVolume>,
}

impl VolumeRegistry {
    /// Every entry is a well-formed world volume, and every cleared entry
    /// was disjoint — after shrinking by its tolerance — from every volume
    /// committed strictly earlier.
    pub open spec fn wf(self) -> bool {
        &&& forall|i: int| 0 <= i < self.volumes@.len() ==> {
            &&& vol_wf((#[trigger] self.volumes@[i]).vol)
            &&& 0 <= self.volumes@[i].tolerance <= REL_BOUND
        }
        &&& forall|i: int, j: int|
            0 <= j < i < self.volumes@.len() && (#[trigger] self.volumes@[i]).cleared
                ==> !blocked_by(
                    self.volumes@[i].vol,
                    self.volumes@[i].tolerance as int,
                    (#[trigger] self.volumes@[j]).vol,
                )
    }

    /// An empty registry.
    pub fn new() -> (r: VolumeRegistry)
        ensures
            r.wf(),
            r.volumes@.len() == 0,
    {
        VolumeRegistry { volumes: Vec::new() }
    }

    /// How many volumes have been committed.
    pub fn len(&self) -> (n: usize)
        ensures
            n == self.volumes@.len(),
    {
        self.volumes.len()
    }

    /// Does the candidate, shrunk by the tolerance, intersect any committed
    /// volume?
    pub fn is_blocked(&self, cand: &Aabb, tol: i64) -> (r: bool)
        requires
            self.wf(),
            vol_wf(*cand),
            0 <= tol <= REL_BOUND,
        ensures
            r == exists|j: int|
                0 <= j < self.volumes@.len() && blocked_by(
                    *cand,
                    tol as int,
                    (#[trigger] self.volumes@[j]).vol,
                ),
    {
        let mut i: usize = 0;
        while i < self.volumes.len()
            invariant
                i <= self.volumes@.len(),
                self.wf(),
                vol_wf(*cand),
                0 <= tol <= REL_BOUND,
                forall|j: int|
                    0 <= j < i ==> !blocked_by(
                        *cand,
                        tol as int,
                        (#[trigger] self.volumes@[j]).vol,
                    ),
            decreases self.volumes@.len() - i,
        {
            if aabb_blocked_by(cand, tol, &self.volumes[i].vol) {
                return true;
            }
            i = i + 1;
        }
        false
    }

    /// Commit a volume without an overlap test: seeds and terrain are
    /// registered this way, deliberately free to overlap anything.
    pub fn register(&mut self, vol: Aabb) -> (h: usize)
        requires
            old(self).wf(),
            vol_wf(vol),
        ensures
            final(self).wf(),
            h == old(self).volumes@.len(),
            final(self).volumes@ == old(self).volumes@.push(
                RegisteredVolume { vol, cleared: false, tolerance: 0 },
            ),
    {
        let h = self.volumes.len();
        self.volumes.push(RegisteredVolume { vol, cleared: false, tolerance: 0 });
        h
    }

    /// Commit a volume that passed the overlap test: the caller shows that
    /// the shrunk candidate is disjoint from everything committed earlier,
    /// and the registry records it as cleared.
    pub fn register_cleared(&mut self, vol: Aabb, tol: i64) -> (h: usize)
        requires
            old(self).wf(),
            vol_wf(vol),
            0 <= tol <= REL_BOUND,
            forall|j: int|
                0 <= j < old(self).volumes@.len() ==> !blocked_by(
                    vol,
                    tol as int,
                    (#[trigger] old(self).volumes@[j]).vol,
                ),
        ensures
            final(self).wf(),
            h == old(self).volumes@.len(),
            final(self).volumes@ == old(self).volumes@.push(
                RegisteredVolume { vol, cleared: true, tolerance: tol },
            ),
    {
        let h = self.volumes.len();
        self.volumes.push(RegisteredVolume { vol, cleared: true, tolerance: tol });
        h
    }
}

/// Law: committed volumes never overlap backwards. Every volume the core
/// committed through an overlap test is — shrunk by the tolerance that test
/// used — disjoint from every volume committed strictly earlier, seeds and
/// terrain included.
pub proof fn lemma_cleared_volume_disjoint(reg: VolumeRegistry, i: int, j: int)
    requires
        reg.wf(),
        0 <= j < i < reg.volumes@.len(),
        reg.volumes@[i].cleared,
    ensures
        !blocked_by(reg.volumes@[i].vol, reg.volumes@[i].tolerance as int, reg.volumes@[j].vol),
{
}

} // verus!
