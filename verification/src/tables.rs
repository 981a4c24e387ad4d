//! Fixed-capacity capability state tables: the single source of truth for
//! "what has been created so far" while the rootserver realizes a capDL
//! specification.
//!
//! Four tables map abstract identifiers (object ID, IRQ number, core number)
//! to capability slots in the rootserver's CSpace, and a fifth maps untyped
//! derivation indices to the capability slots of the kernel-granted untyped
//! memory regions. Every table is sized at build time; an out-of-range index
//! is a configuration error, never a silent truncation. The reserved slot
//! value zero distinguishes an unset entry from a set one.

use vstd::prelude::*;

verus! {

/// Capacity of the `orig` and `dup` object tables. Sized to exceed the
/// specification's object count: construction needs one extra slot per
/// duplicated CNode/TCB and per shared page frame.
pub const CONFIG_CAPDL_LOADER_MAX_OBJECTS: usize = 10000;

/// Capacity of the IRQ handler table.
pub const CONFIG_MAX_NUM_IRQS: usize = 128;

/// Capacity of the scheduling-context table (one entry per core/node).
pub const CONFIG_MAX_NUM_NODES: usize = 1;

/// Capacity of the untyped-region table: the most untyped memory regions the
/// kernel may hand over at boot.
pub const CONFIG_MAX_NUM_BOOTINFO_UNTYPED_CAPS: usize = 230;

/// The reserved capability slot value that marks an entry as unset.
pub const EMPTY_CAP: usize = 0;

/// An index that exceeded its table's build-time capacity, together with that
/// capacity. Fatal: the specification does not fit the configured limits and
/// no partial system may be started.
#[derive(Clone, Copy, Debug, PartialEq, Eq, Structural)]
pub struct CapacityError {
    /// The rejected index.
    pub index: usize,
    /// The capacity of the table the index was checked against.
    pub capacity: usize,
}

/// The capability state tables populated while a capDL specification is
/// realized and read during the later handoff and start phases.
pub struct CantripOsModelState {
    /// Object ID to the first capability created for that object.
    capdl_to_sel4_orig: Vec<usize>,
    /// Object ID to a duplicate capability for the same object, tracked while
    /// the original moves from the rootserver's CSpace to a target CSpace.
    capdl_to_sel4_dup: Vec<usize>,
    /// IRQ number to the associated handler capability.
    capdl_to_sel4_irq: Vec<usize>,
    /// Core/node number to the associated scheduling-context capability.
    capdl_to_sched_ctrl: Vec<usize>,
    /// Untyped derivation index to the region's capability slot.
    untyped_cptrs: Vec<usize>,
}

impl CantripOsModelState {
    /// The `orig` table as a sequence of capability slots, indexed by object ID.
    pub closed spec fn orig_caps(self) -> Seq<usize> {
        self.capdl_to_sel4_orig@
    }

    /// The `dup` table as a sequence of capability slots, indexed by object ID.
    pub closed spec fn dup_caps(self) -> Seq<usize> {
        self.capdl_to_sel4_dup@
    }

    /// The IRQ table as a sequence of capability slots, indexed by IRQ number.
    pub closed spec fn irq_caps(self) -> Seq<usize> {
        self.capdl_to_sel4_irq@
    }

    /// The scheduling-context table as a sequence of capability slots,
    /// indexed by core number.
    pub closed spec fn sched_ctrl_caps(self) -> Seq<usize> {
        self.capdl_to_sched_ctrl@
    }

    /// The untyped table as a sequence of capability slots, indexed by
    /// derivation index.
    pub closed spec fn untyped_caps(self) -> Seq<usize> {
        self.untyped_cptrs@
    }

    /// Every table has exactly its build-time capacity.
    pub open spec fn wf(self) -> bool {
        &&& self.orig_caps().len() == CONFIG_CAPDL_LOADER_MAX_OBJECTS
        &&& self.dup_caps().len() == CONFIG_CAPDL_LOADER_MAX_OBJECTS
        &&& self.irq_caps().len() == CONFIG_MAX_NUM_IRQS
        &&& self.sched_ctrl_caps().len() == CONFIG_MAX_NUM_NODES
        &&& self.untyped_caps().len() == CONFIG_MAX_NUM_BOOTINFO_UNTYPED_CAPS
    }

    /// A table of `n` slots, every entry the empty sentinel.
    fn empty_table(n: usize) -> (r: Vec<usize>)
        ensures
            r@.len() == n,
            forall|i: int| 0 <= i < n ==> r@[i] == EMPTY_CAP,
    {
        let mut r: Vec<usize> = Vec::new();
        while r.len() < n
            invariant
                r@.len() <= n,
                forall|i: int| 0 <= i < r@.len() ==> r@[i] == EMPTY_CAP,
            decreases n - r@.len(),
        {
            r.push(EMPTY_CAP);
        }
        r
    }

    /// Fresh tables: full capacity everywhere, every slot unset.
    pub fn new() -> (r: Self)
        ensures
            r.wf(),
            forall|i: int| 0 <= i < r.orig_caps().len() ==> r.orig_caps()[i] == EMPTY_CAP,
            forall|i: int| 0 <= i < r.dup_caps().len() ==> r.dup_caps()[i] == EMPTY_CAP,
            forall|i: int| 0 <= i < r.irq_caps().len() ==> r.irq_caps()[i] == EMPTY_CAP,
            forall|i: int| 0 <= i < r.sched_ctrl_caps().len() ==> r.sched_ctrl_caps()[i] == EMPTY_CAP,
            forall|i: int| 0 <= i < r.untyped_caps().len() ==> r.untyped_caps()[i] == EMPTY_CAP,
    {
        CantripOsModelState {
            capdl_to_sel4_orig: Self::empty_table(CONFIG_CAPDL_LOADER_MAX_OBJECTS),
            capdl_to_sel4_dup: Self::empty_table(CONFIG_CAPDL_LOADER_MAX_OBJECTS),
            capdl_to_sel4_irq: Self::empty_table(CONFIG_MAX_NUM_IRQS),
            capdl_to_sched_ctrl: Self::empty_table(CONFIG_MAX_NUM_NODES),
            untyped_cptrs: Self::empty_table(CONFIG_MAX_NUM_BOOTINFO_UNTYPED_CAPS),
        }
    }

    /// Capacity of the `orig`/`dup` object tables.
    pub fn get_max_objects(&self) -> (r: usize)
        requires
            self.wf(),
        ensures
            r == CONFIG_CAPDL_LOADER_MAX_OBJECTS,
            r == self.orig_caps().len(),
    {
        self.capdl_to_sel4_orig.len()
    }

    /// Capacity of the IRQ table.
    pub fn get_max_irqs(&self) -> (r: usize)
        requires
            self.wf(),
        ensures
            r == CONFIG_MAX_NUM_IRQS,
            r == self.irq_caps().len(),
    {
        self.capdl_to_sel4_irq.len()
    }

    /// Capacity of the scheduling-context table.
    pub fn get_max_sched_ctrl(&self) -> (r: usize)
        requires
            self.wf(),
        ensures
            r == CONFIG_MAX_NUM_NODES,
            r == self.sched_ctrl_caps().len(),
    {
        self.capdl_to_sched_ctrl.len()
    }

    /// Capacity of the untyped-region table.
    pub fn get_max_untyped_caps(&self) -> (r: usize)
        requires
            self.wf(),
        ensures
            r == CONFIG_MAX_NUM_BOOTINFO_UNTYPED_CAPS,
            r == self.untyped_caps().len(),
    {
        self.untyped_cptrs.len()
    }

    /// The first-created capability for `obj_id`.
    pub fn get_orig_cap(&self, obj_id: usize) -> (r: usize)
        requires
            self.wf(),
            obj_id < CONFIG_CAPDL_LOADER_MAX_OBJECTS,
        ensures
            r == self.orig_caps()[obj_id as int],
    {
        self.capdl_to_sel4_orig[obj_id]
    }

    /// Record the first-created capability for `obj_id`. Only that entry of
    /// the `orig` table changes; every other table is untouched.
    pub fn set_orig_cap(&mut self, obj_id: usize, slot: usize)
        requires
            old(self).wf(),
            obj_id < CONFIG_CAPDL_LOADER_MAX_OBJECTS,
        ensures
            final(self).wf(),
            final(self).orig_caps() == old(self).orig_caps().update(obj_id as int, slot),
            final(self).dup_caps() == old(self).dup_caps(),
            final(self).irq_caps() == old(self).irq_caps(),
            final(self).sched_ctrl_caps() == old(self).sched_ctrl_caps(),
            final(self).untyped_caps() == old(self).untyped_caps(),
    {
        self.capdl_to_sel4_orig[obj_id] = slot;
    }

    /// The duplicate capability for `obj_id`.
    pub fn get_dup_cap(&self, obj_id: usize) -> (r: usize)
        requires
            self.wf(),
            obj_id < CONFIG_CAPDL_LOADER_MAX_OBJECTS,
        ensures
            r == self.dup_caps()[obj_id as int],
    {
        self.capdl_to_sel4_dup[obj_id]
    }

    /// Record the duplicate capability for `obj_id`. Only that entry of the
    /// `dup` table changes; every other table is untouched.
    pub fn set_dup_cap(&mut self, obj_id: usize, slot: usize)
        requires
            old(self).wf(),
            obj_id < CONFIG_CAPDL_LOADER_MAX_OBJECTS,
        ensures
            final(self).wf(),
            final(self).dup_caps() == old(self).dup_caps().update(obj_id as int, slot),
            final(self).orig_caps() == old(self).orig_caps(),
            final(self).irq_caps() == old(self).irq_caps(),
            final(self).sched_ctrl_caps() == old(self).sched_ctrl_caps(),
            final(self).untyped_caps() == old(self).untyped_caps(),
    {
        self.capdl_to_sel4_dup[obj_id] = slot;
    }

    /// The handler capability for IRQ line `irq`.
    pub fn get_irq_cap(&self, irq: usize) -> (r: usize)
        requires
            self.wf(),
            irq < CONFIG_MAX_NUM_IRQS,
        ensures
            r == self.irq_caps()[irq as int],
    {
        self.capdl_to_sel4_irq[irq]
    }

    /// Record the handler capability for IRQ line `irq`. Only that entry of
    /// the IRQ table changes; every other table is untouched.
    pub fn set_irq_cap(&mut self, irq: usize, slot: usize)
        requires
            old(self).wf(),
            irq < CONFIG_MAX_NUM_IRQS,
        ensures
            final(self).wf(),
            final(self).irq_caps() == old(self).irq_caps().update(irq as int, slot),
            final(self).orig_caps() == old(self).orig_caps(),
            final(self).dup_caps() == old(self).dup_caps(),
            final(self).sched_ctrl_caps() == old(self).sched_ctrl_caps(),
            final(self).untyped_caps() == old(self).untyped_caps(),
    {
        self.capdl_to_sel4_irq[irq] = slot;
    }

    /// The scheduling-context capability for core `id`.
    pub fn get_sched_ctrl_cap(&self, id: usize) -> (r: usize)
        requires
            self.wf(),
            id < CONFIG_MAX_NUM_NODES,
        ensures
            r == self.sched_ctrl_caps()[id as int],
    {
        self.capdl_to_sched_ctrl[id]
    }

    /// Record the scheduling-context capability for core `id`. Only that
    /// entry of the scheduling-context table changes; every other table is
    /// untouched.
    pub fn set_sched_ctrl_cap(&mut self, id: usize, slot: usize)
        requires
            old(self).wf(),
            id < CONFIG_MAX_NUM_NODES,
        ensures
            final(self).wf(),
            final(self).sched_ctrl_caps() == old(self).sched_ctrl_caps().update(id as int, slot),
            final(self).orig_caps() == old(self).orig_caps(),
            final(self).dup_caps() == old(self).dup_caps(),
            final(self).irq_caps() == old(self).irq_caps(),
            final(self).untyped_caps() == old(self).untyped_caps(),
    {
        self.capdl_to_sched_ctrl[id] = slot;
    }

    /// The capability slot of the untyped region at derivation index `ix`.
    pub fn get_untyped_cptr(&self, ix: usize) -> (r: usize)
        requires
            self.wf(),
            ix < CONFIG_MAX_NUM_BOOTINFO_UNTYPED_CAPS,
        ensures
            r == self.untyped_caps()[ix as int],
    {
        self.untyped_cptrs[ix]
    }

    /// Record the capability slot of the untyped region at derivation index
    /// `ix`. Only that entry of the untyped table changes; every other table
    /// is untouched.
    pub fn set_untyped_cptr(&mut self, ix: usize, slot: usize)
        requires
            old(self).wf(),
            ix < CONFIG_MAX_NUM_BOOTINFO_UNTYPED_CAPS,
        ensures
            final(self).wf(),
            final(self).untyped_caps() == old(self).untyped_caps().update(ix as int, slot),
            final(self).orig_caps() == old(self).orig_caps(),
            final(self).dup_caps() == old(self).dup_caps(),
            final(self).irq_caps() == old(self).irq_caps(),
            final(self).sched_ctrl_caps() == old(self).sched_ctrl_caps(),
    {
        self.untyped_cptrs[ix] = slot;
    }

    /// Bounds-checked form of [`Self::set_orig_cap`]: an out-of-capacity ID
    /// fails closed with a [`CapacityError`] and changes nothing.
    pub fn try_set_orig_cap(&mut self, obj_id: usize, slot: usize) -> (r: Result<(), CapacityError>)
        requires
            old(self).wf(),
        ensures
            final(self).wf(),
            obj_id < CONFIG_CAPDL_LOADER_MAX_OBJECTS ==> {
                &&& r == Ok::<(), CapacityError>(())
                &&& final(self).orig_caps() == old(self).orig_caps().update(obj_id as int, slot)
            },
            obj_id >= CONFIG_CAPDL_LOADER_MAX_OBJECTS ==> {
                &&& r == Err::<(), CapacityError>(CapacityError {
                    index: obj_id,
                    capacity: CONFIG_CAPDL_LOADER_MAX_OBJECTS,
                })
                &&& final(self).orig_caps() == old(self).orig_caps()
            },
            final(self).dup_caps() == old(self).dup_caps(),
            final(self).irq_caps() == old(self).irq_caps(),
            final(self).sched_ctrl_caps() == old(self).sched_ctrl_caps(),
            final(self).untyped_caps() == old(self).untyped_caps(),
    {
        if obj_id < CONFIG_CAPDL_LOADER_MAX_OBJECTS {
            self.set_orig_cap(obj_id, slot);
            Ok(())
        } else {
            Err(CapacityError { index: obj_id, capacity: CONFIG_CAPDL_LOADER_MAX_OBJECTS })
        }
    }

    /// Bounds-checked form of [`Self::get_orig_cap`]: `None` exactly when the
    /// ID exceeds the table's capacity.
    pub fn try_get_orig_cap(&self, obj_id: usize) -> (r: Option<usize>)
        requires
            self.wf(),
        ensures
            obj_id < CONFIG_CAPDL_LOADER_MAX_OBJECTS ==> r == Some(self.orig_caps()[obj_id as int]),
            obj_id >= CONFIG_CAPDL_LOADER_MAX_OBJECTS ==> r is None,
    {
        if obj_id < CONFIG_CAPDL_LOADER_MAX_OBJECTS {
            Some(self.get_orig_cap(obj_id))
        } else {
            None
        }
    }

    /// Bounds-checked form of [`Self::set_dup_cap`]: an out-of-capacity ID
    /// fails closed with a [`CapacityError`] and changes nothing.
    pub fn try_set_dup_cap(&mut self, obj_id: usize, slot: usize) -> (r: Result<(), CapacityError>)
        requires
            old(self).wf(),
        ensures
            final(self).wf(),
            obj_id < CONFIG_CAPDL_LOADER_MAX_OBJECTS ==> {
                &&& r == Ok::<(), CapacityError>(())
                &&& final(self).dup_caps() == old(self).dup_caps().update(obj_id as int, slot)
            },
            obj_id >= CONFIG_CAPDL_LOADER_MAX_OBJECTS ==> {
                &&& r == Err::<(), CapacityError>(CapacityError {
                    index: obj_id,
                    capacity: CONFIG_CAPDL_LOADER_MAX_OBJECTS,
                })
                &&& final(self).dup_caps() == old(self).dup_caps()
            },
            final(self).orig_caps() == old(self).orig_caps(),
            final(self).irq_caps() == old(self).irq_caps(),
            final(self).sched_ctrl_caps() == old(self).sched_ctrl_caps(),
            final(self).untyped_caps() == old(self).untyped_caps(),
    {
        if obj_id < CONFIG_CAPDL_LOADER_MAX_OBJECTS {
            self.set_dup_cap(obj_id, slot);
            Ok(())
        } else {
            Err(CapacityError { index: obj_id, capacity: CONFIG_CAPDL_LOADER_MAX_OBJECTS })
        }
    }

    /// Bounds-checked form of [`Self::get_dup_cap`]: `None` exactly when the
    /// ID exceeds the table's capacity.
    pub fn try_get_dup_cap(&self, obj_id: usize) -> (r: Option<usize>)
        requires
            self.wf(),
        ensures
            obj_id < CONFIG_CAPDL_LOADER_MAX_OBJECTS ==> r == Some(self.dup_caps()[obj_id as int]),
            obj_id >= CONFIG_CAPDL_LOADER_MAX_OBJECTS ==> r is None,
    {
        if obj_id < CONFIG_CAPDL_LOADER_MAX_OBJECTS {
            Some(self.get_dup_cap(obj_id))
        } else {
            None
        }
    }

    /// Bounds-checked form of [`Self::set_irq_cap`]: an out-of-capacity IRQ
    /// number fails closed with a [`CapacityError`] and changes nothing.
    pub fn try_set_irq_cap(&mut self, irq: usize, slot: usize) -> (r: Result<(), CapacityError>)
        requires
            old(self).wf(),
        ensures
            final(self).wf(),
            irq < CONFIG_MAX_NUM_IRQS ==> {
                &&& r == Ok::<(), CapacityError>(())
                &&& final(self).irq_caps() == old(self).irq_caps().update(irq as int, slot)
            },
            irq >= CONFIG_MAX_NUM_IRQS ==> {
                &&& r == Err::<(), CapacityError>(CapacityError {
                    index: irq,
                    capacity: CONFIG_MAX_NUM_IRQS,
                })
                &&& final(self).irq_caps() == old(self).irq_caps()
            },
            final(self).orig_caps() == old(self).orig_caps(),
            final(self).dup_caps() == old(self).dup_caps(),
            final(self).sched_ctrl_caps() == old(self).sched_ctrl_caps(),
            final(self).untyped_caps() == old(self).untyped_caps(),
    {
        if irq < CONFIG_MAX_NUM_IRQS {
            self.set_irq_cap(irq, slot);
            Ok(())
        } else {
            Err(CapacityError { index: irq, capacity: CONFIG_MAX_NUM_IRQS })
        }
    }

    /// Bounds-checked form of [`Self::get_irq_cap`]: `None` exactly when the
    /// IRQ number exceeds the table's capacity.
    pub fn try_get_irq_cap(&self, irq: usize) -> (r: Option<usize>)
        requires
            self.wf(),
        ensures
            irq < CONFIG_MAX_NUM_IRQS ==> r == Some(self.irq_caps()[irq as int]),
            irq >= CONFIG_MAX_NUM_IRQS ==> r is None,
    {
        if irq < CONFIG_MAX_NUM_IRQS {
            Some(self.get_irq_cap(irq))
        } else {
            None
        }
    }

    /// Bounds-checked form of [`Self::set_sched_ctrl_cap`]: an out-of-capacity
    /// core number fails closed with a [`CapacityError`] and changes nothing.
    pub fn try_set_sched_ctrl_cap(&mut self, id: usize, slot: usize) -> (r: Result<
        (),
        CapacityError,
    >)
        requires
            old(self).wf(),
        ensures
            final(self).wf(),
            id < CONFIG_MAX_NUM_NODES ==> {
                &&& r == Ok::<(), CapacityError>(())
                &&& final(self).sched_ctrl_caps() == old(self).sched_ctrl_caps().update(
                    id as int,
                    slot,
                )
            },
            id >= CONFIG_MAX_NUM_NODES ==> {
                &&& r == Err::<(), CapacityError>(CapacityError {
                    index: id,
                    capacity: CONFIG_MAX_NUM_NODES,
                })
                &&& final(self).sched_ctrl_caps() == old(self).sched_ctrl_caps()
            },
            final(self).orig_caps() == old(self).orig_caps(),
            final(self).dup_caps() == old(self).dup_caps(),
            final(self).irq_caps() == old(self).irq_caps(),
            final(self).untyped_caps() == old(self).untyped_caps(),
    {
        if id < CONFIG_MAX_NUM_NODES {
            self.set_sched_ctrl_cap(id, slot);
            Ok(())
        } else {
            Err(CapacityError { index: id, capacity: CONFIG_MAX_NUM_NODES })
        }
    }

    /// Bounds-checked form of [`Self::get_sched_ctrl_cap`]: `None` exactly
    /// when the core number exceeds the table's capacity.
    pub fn try_get_sched_ctrl_cap(&self, id: usize) -> (r: Option<usize>)
        requires
            self.wf(),
        ensures
            id < CONFIG_MAX_NUM_NODES ==> r == Some(self.sched_ctrl_caps()[id as int]),
            id >= CONFIG_MAX_NUM_NODES ==> r is None,
    {
        if id < CONFIG_MAX_NUM_NODES {
            Some(self.get_sched_ctrl_cap(id))
        } else {
            None
        }
    }

    /// Bounds-checked form of [`Self::set_untyped_cptr`]: an out-of-capacity
    /// index fails closed with a [`CapacityError`] and changes nothing.
    pub fn try_set_untyped_cptr(&mut self, ix: usize, slot: usize) -> (r: Result<
        (),
        CapacityError,
    >)
        requires
            old(self).wf(),
        ensures
            final(self).wf(),
            ix < CONFIG_MAX_NUM_BOOTINFO_UNTYPED_CAPS ==> {
                &&& r == Ok::<(), CapacityError>(())
                &&& final(self).untyped_caps() == old(self).untyped_caps().update(ix as int, slot)
            },
            ix >= CONFIG_MAX_NUM_BOOTINFO_UNTYPED_CAPS ==> {
                &&& r == Err::<(), CapacityError>(CapacityError {
                    index: ix,
                    capacity: CONFIG_MAX_NUM_BOOTINFO_UNTYPED_CAPS,
                })
                &&& final(self).untyped_caps() == old(self).untyped_caps()
            },
            final(self).orig_caps() == old(self).orig_caps(),
            final(self).dup_caps() == old(self).dup_caps(),
            final(self).irq_caps() == old(self).irq_caps(),
            final(self).sched_ctrl_caps() == old(self).sched_ctrl_caps(),
    {
        if ix < CONFIG_MAX_NUM_BOOTINFO_UNTYPED_CAPS {
            self.set_untyped_cptr(ix, slot);
            Ok(())
        } else {
            Err(CapacityError { index: ix, capacity: CONFIG_MAX_NUM_BOOTINFO_UNTYPED_CAPS })
        }
    }

    /// The largest capability slot recorded in the untyped table, the empty
    /// sentinel when no region was recorded; used for boot usage diagnostics.
    pub fn max_untyped_cptr(&self) -> (r: usize)
        requires
            self.wf(),
        ensures
            forall|i: int| 0 <= i < self.untyped_caps().len() ==> self.untyped_caps()[i] <= r,
            r == EMPTY_CAP || exists|i: int|
                0 <= i < self.untyped_caps().len() && self.untyped_caps()[i] == r,
    {
        let mut r: usize = EMPTY_CAP;
        let mut i: usize = 0;
        let n = self.untyped_cptrs.len();
        while i < n
            invariant
                self.wf(),
                n == self.untyped_caps().len(),
                i <= n,
                forall|k: int| 0 <= k < i ==> self.untyped_caps()[k] <= r,
                r == EMPTY_CAP || exists|k: int|
                    0 <= k < i && self.untyped_caps()[k] == r,
            decreases n - i,
        {
            if self.untyped_cptrs[i] > r {
                r = self.untyped_cptrs[i];
            }
            i = i + 1;
        }
        r
    }

    /// Bounds-checked form of [`Self::get_untyped_cptr`]: `None` exactly when
    /// the index exceeds the table's capacity.
    pub fn try_get_untyped_cptr(&self, ix: usize) -> (r: Option<usize>)
        requires
            self.wf(),
        ensures
            ix < CONFIG_MAX_NUM_BOOTINFO_UNTYPED_CAPS ==> r == Some(self.untyped_caps()[ix as int]),
            ix >= CONFIG_MAX_NUM_BOOTINFO_UNTYPED_CAPS ==> r is None,
    {
        if ix < CONFIG_MAX_NUM_BOOTINFO_UNTYPED_CAPS {
            Some(self.get_untyped_cptr(ix))
        } else {
            None
        }
    }
}

/// Law: storing a handle under an object ID and reading the same ID back
/// yields exactly the stored handle, and every other entry of the table is
/// unchanged. `table1` is related to `table0` as the `ensures` of every `set`
/// accessor describes its table, and the indexing is the one every `get`
/// accessor returns.
pub proof fn lemma_set_then_get_round_trip(
    table0: Seq<usize>,
    table1: Seq<usize>,
    id: int,
    slot: usize,
)
    requires
        0 <= id < table0.len(),
        table1 == table0.update(id, slot),
    ensures
        table1[id] == slot,
        table1.len() == table0.len(),
        forall|j: int| 0 <= j < table0.len() && j != id ==> table1[j] == table0[j],
{
}

} // verus!
