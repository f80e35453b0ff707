//! The module library: the read-only table of prefabricated modules, each
//! with a bounding box and its learned transition entries — the weighted
//! candidate successor placements. A module is identified by its index in
//! the library; the name travels along for reporting.

use vstd::prelude::*;

use crate::geom::{box_wf, Aabb, Vec3i, REL_BOUND};

verus! {

/// One learned transition entry: a destination module and the relative
/// offset of its pose in the source module's local frame. A destination may
/// appear in several entries; each entry is one independent uniform choice,
/// so destinations observed more often are proportionally more likely.
#[derive(Clone, Copy, PartialEq, Eq, Structural, Debug)]
pub struct Transition {
    pub dest: usize,
    pub offset: Vec3i,
}

/// A module descriptor: a display name, the bounding box of its geometry in
/// local coordinates, and its transition entries. An empty transition list
/// means the module is a dead end and cannot be extended.
#[derive(Debug)]
pub struct Module {
    pub name: String,
    pub aabb: Aabb,
    pub transitions: Vec<Transition>,
}

/// The read-only library of modules, indexed by module id.
#[derive(Debug)]
pub struct ModuleLibrary {
    pub modules: Vec<Module>,
}

impl ModuleLibrary {
    /// A well-formed library: every bounding box is a well-formed local box
    /// and every transition entry names an existing destination module and
    /// stays within the relative-offset bound. The loader validates the data
    /// before the core runs on it.
    pub open spec fn wf(self) -> bool {
        forall|m: int| 0 <= m < self.modules@.len() ==> {
            &&& box_wf((#[trigger] self.modules@[m]).aabb)
            &&& forall|k: int| 0 <= k < self.modules@[m].transitions@.len() ==> {
                &&& (#[trigger] self.modules@[m].transitions@[k]).dest < self.modules@.len()
                &&& self.modules@[m].transitions@[k].offset.bounded(REL_BOUND as int)
            }
        }
    }

    /// How many modules the library holds.
    pub fn module_count(&self) -> (n: usize)
        ensures
            n == self.modules@.len(),
    {
        self.modules.len()
    }

    /// The bounding box of a module, in module-local coordinates.
    pub fn lookup_bbox(&self, module: usize) -> (r: Aabb)
        requires
            module < self.modules@.len(),
        ensures
            r == self.modules@[module as int].aabb,
    {
        self.modules[module].aabb
    }

    /// The learned transition entries of a module; empty if none were
    /// learned.
    pub fn lookup_transitions(&self, module: usize) -> (r: &Vec<Transition>)
        requires
            module < self.modules@.len(),
        ensures
            r@ == self.modules@[module as int].transitions@,
    {
        &self.modules[module].transitions
    }
}

} // verus!
