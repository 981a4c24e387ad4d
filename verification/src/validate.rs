//! Boot-time validation: cross-checks the kernel's boot descriptor and the
//! capDL specification's resource counts against the build-time table
//! capacities, before any construction work runs.
//!
//! Every violation is a configuration error — the tables cannot grow at run
//! time — so validation reports the insufficient resource together with both
//! the observed and the configured value, and the boot aborts.

use vstd::prelude::*;

use crate::tables::CantripOsModelState;
use crate::tables::CONFIG_CAPDL_LOADER_MAX_OBJECTS;
use crate::tables::CONFIG_MAX_NUM_BOOTINFO_UNTYPED_CAPS;
use crate::tables::CONFIG_MAX_NUM_IRQS;
use crate::tables::CONFIG_MAX_NUM_NODES;
use crate::untyped::UntypedRegion;

verus! {

/// Capacity of the address-space-ID slots the specification may claim.
pub const CONFIG_MAX_NUM_ASID_SLOTS: usize = 1024;

/// What the kernel reports about the boot environment, read once at startup:
/// the range of free capability slots, the core count, the untyped regions it
/// surrenders (with their taint tags), the capability-space size exponent and
/// the address of this thread's IPC buffer.
pub struct BootDescriptor {
    /// First free capability slot in the rootserver's CSpace.
    pub empty_start: usize,
    /// One past the last free capability slot.
    pub empty_end: usize,
    /// Number of cores/nodes the kernel runs on.
    pub num_nodes: usize,
    /// The untyped memory regions surrendered by the kernel, in derivation order.
    pub untyped: Vec<UntypedRegion>,
    /// Size exponent of the rootserver's capability space.
    pub init_cnode_size_bits: usize,
    /// Where the kernel believes this thread's IPC buffer lives.
    pub ipc_buffer: usize,
}

impl BootDescriptor {
    /// The free-slot range is properly ordered.
    pub open spec fn wf(self) -> bool {
        self.empty_start <= self.empty_end
    }

    /// Number of free capability slots the kernel reports.
    pub open spec fn free_slots(self) -> int {
        self.empty_end - self.empty_start
    }
}

/// The resource counts of the immutable capDL specification: how many kernel
/// objects, IRQ handlers, untyped objects and address-space-ID slots it names.
#[derive(Clone, Copy, Debug, PartialEq, Eq, Structural)]
pub struct SystemDescription {
    /// Number of objects the specification creates.
    pub num_objects: usize,
    /// Number of IRQ handlers the specification names.
    pub num_irqs: usize,
    /// Number of untyped objects the specification names.
    pub num_untyped: usize,
    /// Number of address-space-ID slots the specification claims.
    pub num_asid_slots: usize,
}

/// A validation failure: the insufficient resource, with the observed value
/// and the configured limit it violated. Fatal — a build-time tuning error.
#[derive(Clone, Copy, Debug, PartialEq, Eq, Structural)]
pub enum BootError {
    /// Our notion of the IPC buffer disagrees with the kernel's; every later
    /// system call would be suspect.
    IpcBufferMismatch { kernel: usize, ours: usize },
    /// Fewer free capability slots than the object tables may consume.
    InsufficientFreeSlots { available: usize, required: usize },
    /// The specification names more objects than the object tables hold.
    TooManyObjects { requested: usize, capacity: usize },
    /// The specification names more IRQ handlers than the IRQ table holds.
    TooManyIrqs { requested: usize, capacity: usize },
    /// The kernel reports more cores than the scheduling-context table holds.
    TooManyNodes { requested: usize, capacity: usize },
    /// The specification names more untyped objects than the untyped table holds.
    TooManyUntypedObjects { requested: usize, capacity: usize },
    /// The kernel surrenders more untyped regions than the untyped table holds.
    TooManyUntypedRegions { requested: usize, capacity: usize },
    /// The specification claims more address-space-ID slots than configured.
    TooManyAsidSlots { requested: usize, capacity: usize },
}

/// The exact outcome of validation: the first check that fails, in the order
/// the checks run, or success when every resource fits.
pub open spec fn spec_validate(
    bd: BootDescriptor,
    sd: SystemDescription,
    ipc_buffer: usize,
) -> Result<(), BootError> {
    if ipc_buffer != bd.ipc_buffer {
        Err(BootError::IpcBufferMismatch { kernel: bd.ipc_buffer, ours: ipc_buffer })
    } else if bd.free_slots() < CONFIG_CAPDL_LOADER_MAX_OBJECTS {
        Err(
            BootError::InsufficientFreeSlots {
                available: bd.free_slots() as usize,
                required: CONFIG_CAPDL_LOADER_MAX_OBJECTS,
            },
        )
    } else if sd.num_objects > CONFIG_CAPDL_LOADER_MAX_OBJECTS {
        Err(
            BootError::TooManyObjects {
                requested: sd.num_objects,
                capacity: CONFIG_CAPDL_LOADER_MAX_OBJECTS,
            },
        )
    } else if sd.num_irqs > CONFIG_MAX_NUM_IRQS {
        Err(BootError::TooManyIrqs { requested: sd.num_irqs, capacity: CONFIG_MAX_NUM_IRQS })
    } else if bd.num_nodes > CONFIG_MAX_NUM_NODES {
        Err(BootError::TooManyNodes { requested: bd.num_nodes, capacity: CONFIG_MAX_NUM_NODES })
    } else if sd.num_untyped > CONFIG_MAX_NUM_BOOTINFO_UNTYPED_CAPS {
        Err(
            BootError::TooManyUntypedObjects {
                requested: sd.num_untyped,
                capacity: CONFIG_MAX_NUM_BOOTINFO_UNTYPED_CAPS,
            },
        )
    } else if bd.untyped@.len() > CONFIG_MAX_NUM_BOOTINFO_UNTYPED_CAPS {
        Err(
            BootError::TooManyUntypedRegions {
                requested: bd.untyped@.len() as usize,
                capacity: CONFIG_MAX_NUM_BOOTINFO_UNTYPED_CAPS,
            },
        )
    } else if sd.num_asid_slots > CONFIG_MAX_NUM_ASID_SLOTS {
        Err(
            BootError::TooManyAsidSlots {
                requested: sd.num_asid_slots,
                capacity: CONFIG_MAX_NUM_ASID_SLOTS,
            },
        )
    } else {
        Ok(())
    }
}

/// Validation succeeds exactly when every resource fits its configured limit.
pub open spec fn spec_validation_passes(
    bd: BootDescriptor,
    sd: SystemDescription,
    ipc_buffer: usize,
) -> bool {
    &&& ipc_buffer == bd.ipc_buffer
    &&& bd.free_slots() >= CONFIG_CAPDL_LOADER_MAX_OBJECTS
    &&& sd.num_objects <= CONFIG_CAPDL_LOADER_MAX_OBJECTS
    &&& sd.num_irqs <= CONFIG_MAX_NUM_IRQS
    &&& bd.num_nodes <= CONFIG_MAX_NUM_NODES
    &&& sd.num_untyped <= CONFIG_MAX_NUM_BOOTINFO_UNTYPED_CAPS
    &&& bd.untyped@.len() <= CONFIG_MAX_NUM_BOOTINFO_UNTYPED_CAPS
    &&& sd.num_asid_slots <= CONFIG_MAX_NUM_ASID_SLOTS
}

/// Law: validation returns `Ok` if and only if every resource fits.
pub proof fn lemma_validate_ok_iff_fits(bd: BootDescriptor, sd: SystemDescription, ipc_buffer: usize)
    ensures
        spec_validate(bd, sd, ipc_buffer) is Ok <==> spec_validation_passes(bd, sd, ipc_buffer),
{
}

/// Cross-check the kernel's boot descriptor and the specification's resource
/// counts against the capability state tables' capacities. Returns the first
/// violated limit, or `Ok` when the boot may proceed to construction.
///
/// The tables' own capacity accessors supply the configured limits, so the
/// validator cannot drift from the tables it guards.
pub fn validate(
    state: &CantripOsModelState,
    bd: &BootDescriptor,
    sd: &SystemDescription,
    ipc_buffer: usize,
) -> (r: Result<(), BootError>)
    requires
        state.wf(),
        bd.wf(),
    ensures
        r == spec_validate(*bd, *sd, ipc_buffer),
{
    let max_objects = state.get_max_objects();
    let max_irqs = state.get_max_irqs();
    let max_nodes = state.get_max_sched_ctrl();
    let max_untyped = state.get_max_untyped_caps();
    let free_slots = bd.empty_end - bd.empty_start;
    if ipc_buffer != bd.ipc_buffer {
        Err(BootError::IpcBufferMismatch { kernel: bd.ipc_buffer, ours: ipc_buffer })
    } else if free_slots < max_objects {
        Err(BootError::InsufficientFreeSlots { available: free_slots, required: max_objects })
    } else if sd.num_objects > max_objects {
        Err(BootError::TooManyObjects { requested: sd.num_objects, capacity: max_objects })
    } else if sd.num_irqs > max_irqs {
        Err(BootError::TooManyIrqs { requested: sd.num_irqs, capacity: max_irqs })
    } else if bd.num_nodes > max_nodes {
        Err(BootError::TooManyNodes { requested: bd.num_nodes, capacity: max_nodes })
    } else if sd.num_untyped > max_untyped {
        Err(BootError::TooManyUntypedObjects { requested: sd.num_untyped, capacity: max_untyped })
    } else if bd.untyped.len() > max_untyped {
        Err(
            BootError::TooManyUntypedRegions {
                requested: bd.untyped.len(),
                capacity: max_untyped,
            },
        )
    } else if sd.num_asid_slots > CONFIG_MAX_NUM_ASID_SLOTS {
        Err(
            BootError::TooManyAsidSlots {
                requested: sd.num_asid_slots,
                capacity: CONFIG_MAX_NUM_ASID_SLOTS,
            },
        )
    } else {
        Ok(())
    }
}

} // verus!
