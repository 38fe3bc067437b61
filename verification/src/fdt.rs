//! The hart-id map: the ordered sequence of physical hart ids the device
//! tree reported, published once at boot.
//!
//! Walking the device tree itself is the platform collaborator's job — it
//! yields the physical id of every `cpu` node. This module owns what the
//! kernel decides about them: the boot hart goes to logical index 0
//! whatever the tree's order, the map never changes afterwards, and the
//! logical↔physical conversions are lookups in it.

use vstd::prelude::*;

verus! {

/// The ids of `s` other than `boot`, in order.
pub open spec fn others(s: Seq<usize>, boot: usize) -> Seq<usize>
    decreases s.len(),
{
    if s.len() == 0 {
        Seq::empty()
    } else if s.last() == boot {
        others(s.drop_last(), boot)
    } else {
        others(s.drop_last(), boot).push(s.last())
    }
}

/// The published map from logical (dense, `0..N`) to physical hart ids.
pub struct HartIdMap {
    ids: Vec<usize>,
}

impl HartIdMap {
    /// The physical hart ids, indexed by logical id.
    pub closed spec fn phys_ids(&self) -> Seq<usize> {
        self.ids@
    }

    /// Build the map from the physical ids the device tree walk reported.
    /// The boot hart takes logical index 0 — it is running this code, so
    /// it belongs in the map even when a broken tree omitted it — and the
    /// remaining ids follow in the tree's order.
    pub fn build(physical_ids: &Vec<usize>, boot_hart: usize) -> (m: HartIdMap)
        ensures
            m.phys_ids() == seq![boot_hart] + others(physical_ids@, boot_hart),
            m.phys_ids().len() >= 1,
            m.phys_ids()[0] == boot_hart,
    {
        let mut ids: Vec<usize> = Vec::new();
        ids.push(boot_hart);
        let n = physical_ids.len();
        let mut j: usize = 0;
        while j < n
            invariant
                n == physical_ids@.len(),
                j <= n,
                ids@ == seq![boot_hart] + others(physical_ids@.subrange(0, j as int), boot_hart),
            decreases n - j,
        {
            let id = physical_ids[j];
            proof {
                assert(physical_ids@.subrange(0, j + 1).drop_last() =~= physical_ids@.subrange(
                    0,
                    j as int,
                ));
            }
            if id != boot_hart {
                ids.push(id);
            }
            j = j + 1;
        }
        proof {
            assert(physical_ids@.subrange(0, n as int) =~= physical_ids@);
        }
        HartIdMap { ids }
    }

    /// How many harts the map knows.
    pub fn hart_count(&self) -> (n: usize)
        ensures
            n == self.phys_ids().len(),
    {
        self.ids.len()
    }

    /// Whether a physical hart id is in the map. An id that is not is a
    /// bug — callers test this before converting.
    pub fn knows_physical(&self, physical_hart_id: usize) -> (b: bool)
        ensures
            b == self.phys_ids().contains(physical_hart_id),
    {
        let n = self.ids.len();
        let mut j: usize = 0;
        while j < n
            invariant
                n == self.phys_ids().len(),
                j <= n,
                forall|i: int| 0 <= i < j ==> self.phys_ids()[i] != physical_hart_id,
            decreases n - j,
        {
            if self.ids[j] == physical_hart_id {
                return true;
            }
            j = j + 1;
        }
        false
    }

    /// The logical id of a known physical hart id: the first map index
    /// holding it.
    pub fn to_logical(&self, physical_hart_id: usize) -> (logical: usize)
        requires
            self.phys_ids().contains(physical_hart_id),
        ensures
            logical < self.phys_ids().len(),
            self.phys_ids()[logical as int] == physical_hart_id,
            forall|i: int| 0 <= i < logical ==> self.phys_ids()[i] != physical_hart_id,
    {
        let n = self.ids.len();
        let mut j: usize = 0;
        while j < n
            invariant
                n == self.phys_ids().len(),
                j <= n,
                self.phys_ids().contains(physical_hart_id),
                forall|i: int| 0 <= i < j ==> self.phys_ids()[i] != physical_hart_id,
            decreases n - j,
        {
            if self.ids[j] == physical_hart_id {
                return j;
            }
            j = j + 1;
        }
        proof {
            let w = choose|i: int| 0 <= i < self.phys_ids().len() && self.phys_ids()[i]
                == physical_hart_id;
            assert(false);
        }
        unreached()
    }

    /// The physical id at a logical index.
    pub fn to_physical(&self, logical_hart_id: usize) -> (physical: usize)
        requires
            logical_hart_id < self.phys_ids().len(),
        ensures
            physical == self.phys_ids()[logical_hart_id as int],
    {
        self.ids[logical_hart_id]
    }
}

} // verus!
