//! The shared template snapshot, modelled as a single-slot versioned
//! cell: the writer replaces the slot's value in one indivisible step,
//! readers copy out the current reference before use and never see an
//! intermediate state.

use vstd::prelude::*;

verus! {

/// The reference a reader copies out of the cell: one internally
/// consistent snapshot generation, held unchanged for as long as the
/// reader renders with it.
#[derive(Clone, Copy, Debug, PartialEq, Eq, Structural)]
pub struct SnapshotRef {
    pub generation: u64,
}

/// A single-slot versioned cell over the compiled-template bundle.
/// The slot is replaced, never mutated: each successful reload installs
/// the next generation, and a failed reload leaves the last good
/// generation live.
#[derive(Clone, Copy, Debug, PartialEq, Eq, Structural)]
pub struct SnapshotCell {
    pub generation: u64,
}

impl SnapshotCell {
    /// The cell holding the generation compiled at startup.
    pub fn initial() -> (c: SnapshotCell)
        ensures
            c.generation == 0,
    {
        SnapshotCell { generation: 0 }
    }

    /// A reader copies out the current snapshot reference. The copy is
    /// untouched by later swaps, so a render that began before a reload
    /// completes with the snapshot it started with.
    pub fn read(&self) -> (r: SnapshotRef)
        ensures
            r.generation == self.generation,
    {
        SnapshotRef { generation: self.generation }
    }

    /// The writer installs the next generation in one indivisible step.
    pub fn install_next(&mut self)
        requires
            old(self).generation < u64::MAX,
        ensures
            final(self).generation == old(self).generation + 1,
    {
        self.generation = self.generation + 1;
    }
}

} // verus!
