use cantrip_os_rootserver::boot::{BootAction, BootOrchestrator, Phase};
use cantrip_os_rootserver::console::{format_log_line, LOG_BUFFER_SIZE};
use cantrip_os_rootserver::image::image_layout;
use cantrip_os_rootserver::tables::{
    CantripOsModelState, CapacityError, CONFIG_CAPDL_LOADER_MAX_OBJECTS,
    CONFIG_MAX_NUM_BOOTINFO_UNTYPED_CAPS, CONFIG_MAX_NUM_IRQS, CONFIG_MAX_NUM_NODES, EMPTY_CAP,
};
use cantrip_os_rootserver::untyped::{hand_off_all, RegionState, UntypedRegion};
use cantrip_os_rootserver::validate::{
    validate, BootDescriptor, BootError, SystemDescription, CONFIG_MAX_NUM_ASID_SLOTS,
};

fn regions(tags: &[bool]) -> Vec<UntypedRegion> {
    let mut v = Vec::new();
    for (i, &tainted) in tags.iter().enumerate() {
        v.push(UntypedRegion::new(100 + i, tainted));
    }
    v
}

fn descriptor(free_slots: usize, tags: &[bool]) -> BootDescriptor {
    BootDescriptor {
        empty_start: 64,
        empty_end: 64 + free_slots,
        num_nodes: 1,
        untyped: regions(tags),
        init_cnode_size_bits: 14,
        ipc_buffer: 0x5000,
    }
}

fn small_model() -> SystemDescription {
    SystemDescription { num_objects: 3, num_irqs: 0, num_untyped: 2, num_asid_slots: 1 }
}

#[test]
fn orig_cap_round_trip() {
    let mut state = CantripOsModelState::new();
    state.set_orig_cap(5, 1234);
    assert_eq!(state.get_orig_cap(5), 1234);
    assert_eq!(state.get_orig_cap(4), EMPTY_CAP);
    assert_eq!(state.get_orig_cap(6), EMPTY_CAP);
    state.set_orig_cap(0, 9);
    state.set_orig_cap(CONFIG_CAPDL_LOADER_MAX_OBJECTS - 1, 77);
    assert_eq!(state.get_orig_cap(0), 9);
    assert_eq!(state.get_orig_cap(CONFIG_CAPDL_LOADER_MAX_OBJECTS - 1), 77);
    assert_eq!(state.get_orig_cap(5), 1234);
}

#[test]
fn orig_cap_out_of_capacity_fails_closed() {
    let mut state = CantripOsModelState::new();
    state.set_orig_cap(3, 42);
    let err = state.try_set_orig_cap(CONFIG_CAPDL_LOADER_MAX_OBJECTS, 1);
    assert_eq!(
        err,
        Err(CapacityError {
            index: CONFIG_CAPDL_LOADER_MAX_OBJECTS,
            capacity: CONFIG_CAPDL_LOADER_MAX_OBJECTS,
        })
    );
    assert_eq!(state.try_get_orig_cap(CONFIG_CAPDL_LOADER_MAX_OBJECTS), None);
    // The failed set changed nothing.
    assert_eq!(state.get_orig_cap(3), 42);
    assert_eq!(state.try_get_orig_cap(3), Some(42));
    assert_eq!(state.try_set_orig_cap(3, 43), Ok(()));
    assert_eq!(state.get_orig_cap(3), 43);
}

#[test]
fn fresh_tables_report_empty_sentinel() {
    let state = CantripOsModelState::new();
    for id in 0..state.get_max_objects() {
        assert_eq!(state.get_orig_cap(id), EMPTY_CAP);
        assert_eq!(state.get_dup_cap(id), EMPTY_CAP);
    }
    for irq in 0..state.get_max_irqs() {
        assert_eq!(state.get_irq_cap(irq), EMPTY_CAP);
    }
    for core in 0..state.get_max_sched_ctrl() {
        assert_eq!(state.get_sched_ctrl_cap(core), EMPTY_CAP);
    }
    for ix in 0..state.get_max_untyped_caps() {
        assert_eq!(state.get_untyped_cptr(ix), EMPTY_CAP);
    }
}

#[test]
fn capacity_accessors_report_configured_limits() {
    let state = CantripOsModelState::new();
    assert_eq!(state.get_max_objects(), CONFIG_CAPDL_LOADER_MAX_OBJECTS);
    assert_eq!(state.get_max_irqs(), CONFIG_MAX_NUM_IRQS);
    assert_eq!(state.get_max_sched_ctrl(), CONFIG_MAX_NUM_NODES);
    assert_eq!(state.get_max_untyped_caps(), CONFIG_MAX_NUM_BOOTINFO_UNTYPED_CAPS);
}

#[test]
fn dup_irq_sched_untyped_round_trips() {
    let mut state = CantripOsModelState::new();
    state.set_dup_cap(7, 70);
    assert_eq!(state.get_dup_cap(7), 70);
    assert_eq!(state.get_orig_cap(7), EMPTY_CAP);
    state.set_irq_cap(11, 110);
    assert_eq!(state.get_irq_cap(11), 110);
    state.set_sched_ctrl_cap(0, 50);
    assert_eq!(state.get_sched_ctrl_cap(0), 50);
    state.set_untyped_cptr(13, 130);
    assert_eq!(state.get_untyped_cptr(13), 130);
}

#[test]
fn max_untyped_cptr_reports_largest_recorded_slot() {
    let mut state = CantripOsModelState::new();
    assert_eq!(state.max_untyped_cptr(), EMPTY_CAP);
    state.set_untyped_cptr(0, 120);
    state.set_untyped_cptr(1, 450);
    state.set_untyped_cptr(2, 90);
    assert_eq!(state.max_untyped_cptr(), 450);
}

#[test]
fn every_table_fails_closed_out_of_capacity() {
    let mut state = CantripOsModelState::new();
    assert_eq!(
        state.try_set_dup_cap(CONFIG_CAPDL_LOADER_MAX_OBJECTS + 4, 1),
        Err(CapacityError {
            index: CONFIG_CAPDL_LOADER_MAX_OBJECTS + 4,
            capacity: CONFIG_CAPDL_LOADER_MAX_OBJECTS,
        })
    );
    assert_eq!(
        state.try_set_irq_cap(CONFIG_MAX_NUM_IRQS, 1),
        Err(CapacityError { index: CONFIG_MAX_NUM_IRQS, capacity: CONFIG_MAX_NUM_IRQS })
    );
    assert_eq!(
        state.try_set_sched_ctrl_cap(CONFIG_MAX_NUM_NODES, 1),
        Err(CapacityError { index: CONFIG_MAX_NUM_NODES, capacity: CONFIG_MAX_NUM_NODES })
    );
    assert_eq!(
        state.try_set_untyped_cptr(CONFIG_MAX_NUM_BOOTINFO_UNTYPED_CAPS, 1),
        Err(CapacityError {
            index: CONFIG_MAX_NUM_BOOTINFO_UNTYPED_CAPS,
            capacity: CONFIG_MAX_NUM_BOOTINFO_UNTYPED_CAPS,
        })
    );
    assert_eq!(state.try_get_dup_cap(CONFIG_CAPDL_LOADER_MAX_OBJECTS), None);
    assert_eq!(state.try_get_irq_cap(CONFIG_MAX_NUM_IRQS), None);
    assert_eq!(state.try_get_sched_ctrl_cap(CONFIG_MAX_NUM_NODES), None);
    assert_eq!(state.try_get_untyped_cptr(CONFIG_MAX_NUM_BOOTINFO_UNTYPED_CAPS), None);
    // In-capacity accesses still work afterwards.
    assert_eq!(state.try_set_irq_cap(CONFIG_MAX_NUM_IRQS - 1, 8), Ok(()));
    assert_eq!(state.try_get_irq_cap(CONFIG_MAX_NUM_IRQS - 1), Some(8));
}

#[test]
fn validator_rejects_insufficient_free_slots() {
    let state = CantripOsModelState::new();
    let bd = descriptor(CONFIG_CAPDL_LOADER_MAX_OBJECTS - 1, &[false, true]);
    let r = validate(&state, &bd, &small_model(), bd.ipc_buffer);
    assert_eq!(
        r,
        Err(BootError::InsufficientFreeSlots {
            available: CONFIG_CAPDL_LOADER_MAX_OBJECTS - 1,
            required: CONFIG_CAPDL_LOADER_MAX_OBJECTS,
        })
    );
}

#[test]
fn validator_accepts_exactly_enough_free_slots() {
    let state = CantripOsModelState::new();
    let bd = descriptor(CONFIG_CAPDL_LOADER_MAX_OBJECTS, &[false, true]);
    assert_eq!(validate(&state, &bd, &small_model(), bd.ipc_buffer), Ok(()));
    let bd2 = descriptor(CONFIG_CAPDL_LOADER_MAX_OBJECTS + 500, &[false, true]);
    assert_eq!(validate(&state, &bd2, &small_model(), bd2.ipc_buffer), Ok(()));
}

#[test]
fn validator_reports_each_violated_limit() {
    let state = CantripOsModelState::new();
    let bd = descriptor(CONFIG_CAPDL_LOADER_MAX_OBJECTS, &[false]);
    let sd = small_model();

    assert_eq!(
        validate(&state, &bd, &sd, bd.ipc_buffer + 1),
        Err(BootError::IpcBufferMismatch { kernel: bd.ipc_buffer, ours: bd.ipc_buffer + 1 })
    );

    let too_many_objects = SystemDescription {
        num_objects: CONFIG_CAPDL_LOADER_MAX_OBJECTS + 1,
        ..sd
    };
    assert_eq!(
        validate(&state, &bd, &too_many_objects, bd.ipc_buffer),
        Err(BootError::TooManyObjects {
            requested: CONFIG_CAPDL_LOADER_MAX_OBJECTS + 1,
            capacity: CONFIG_CAPDL_LOADER_MAX_OBJECTS,
        })
    );

    let too_many_irqs = SystemDescription { num_irqs: CONFIG_MAX_NUM_IRQS + 1, ..sd };
    assert_eq!(
        validate(&state, &bd, &too_many_irqs, bd.ipc_buffer),
        Err(BootError::TooManyIrqs {
            requested: CONFIG_MAX_NUM_IRQS + 1,
            capacity: CONFIG_MAX_NUM_IRQS,
        })
    );

    let mut many_nodes = descriptor(CONFIG_CAPDL_LOADER_MAX_OBJECTS, &[false]);
    many_nodes.num_nodes = CONFIG_MAX_NUM_NODES + 1;
    assert_eq!(
        validate(&state, &many_nodes, &sd, many_nodes.ipc_buffer),
        Err(BootError::TooManyNodes {
            requested: CONFIG_MAX_NUM_NODES + 1,
            capacity: CONFIG_MAX_NUM_NODES,
        })
    );

    let too_many_untyped_objects = SystemDescription {
        num_untyped: CONFIG_MAX_NUM_BOOTINFO_UNTYPED_CAPS + 1,
        ..sd
    };
    assert_eq!(
        validate(&state, &bd, &too_many_untyped_objects, bd.ipc_buffer),
        Err(BootError::TooManyUntypedObjects {
            requested: CONFIG_MAX_NUM_BOOTINFO_UNTYPED_CAPS + 1,
            capacity: CONFIG_MAX_NUM_BOOTINFO_UNTYPED_CAPS,
        })
    );

    let too_many_asids = SystemDescription { num_asid_slots: CONFIG_MAX_NUM_ASID_SLOTS + 1, ..sd };
    assert_eq!(
        validate(&state, &bd, &too_many_asids, bd.ipc_buffer),
        Err(BootError::TooManyAsidSlots {
            requested: CONFIG_MAX_NUM_ASID_SLOTS + 1,
            capacity: CONFIG_MAX_NUM_ASID_SLOTS,
        })
    );
}

#[test]
fn handoff_forwards_every_region_in_order_with_tags() {
    let tags = [true, false, false, true, false];
    let mut v = regions(&tags);
    hand_off_all(&mut v);
    assert_eq!(v.len(), tags.len());
    for (i, &tainted) in tags.iter().enumerate() {
        assert_eq!(v[i].get_slot(), 100 + i);
        assert_eq!(v[i].is_tainted(), tainted);
        assert_eq!(v[i].get_state(), RegionState::HandedOff);
    }
}

#[test]
fn handoff_of_empty_region_list() {
    let mut v: Vec<UntypedRegion> = Vec::new();
    hand_off_all(&mut v);
    assert!(v.is_empty());
}

#[test]
fn region_keeps_slot_and_tag_through_handoff() {
    let mut r = UntypedRegion::new(321, true);
    assert_eq!(r.get_state(), RegionState::Owned);
    r.hand_off();
    assert_eq!(r.get_slot(), 321);
    assert!(r.is_tainted());
    assert_eq!(r.get_state(), RegionState::HandedOff);
}

/// Drive the orchestrator, performing each requested action against the
/// capability state, and record which actions were requested.
fn run_boot(
    state: &mut CantripOsModelState,
    bd: &mut BootDescriptor,
    sd: &SystemDescription,
    our_ipc_buffer: usize,
) -> (Phase, Vec<BootAction>) {
    let mut orchestrator = BootOrchestrator::new();
    let mut performed = Vec::new();
    loop {
        let action = match orchestrator.current_action() {
            Some(a) => a,
            None => break,
        };
        performed.push(action);
        match action {
            BootAction::InstallLogger => orchestrator.advance(true),
            BootAction::InitHeap => orchestrator.advance(true),
            BootAction::RunValidate => {
                let ok = validate(state, bd, sd, our_ipc_buffer).is_ok();
                orchestrator.advance(ok);
            }
            BootAction::RunConstruct => {
                // Stand-in construction engine: give each declared object an
                // original capability and record each untyped region's slot.
                for id in 0..sd.num_objects {
                    state.set_orig_cap(id, 1000 + id);
                }
                for ix in 0..bd.untyped.len() {
                    state.set_untyped_cptr(ix, bd.untyped[ix].get_slot());
                }
                orchestrator.advance(true);
            }
            BootAction::RunHandoff => {
                hand_off_all(&mut bd.untyped);
                orchestrator.advance(true);
            }
            BootAction::RunStart => orchestrator.advance(true),
            BootAction::SuspendSelf => break,
        }
    }
    (orchestrator.current_phase(), performed)
}

#[test]
fn boot_reaches_suspend_with_populated_tables_and_forwarded_regions() {
    let mut state = CantripOsModelState::new();
    let mut bd = descriptor(CONFIG_CAPDL_LOADER_MAX_OBJECTS, &[true, false]);
    let sd = small_model();
    let ipc = bd.ipc_buffer;

    let (phase, performed) = run_boot(&mut state, &mut bd, &sd, ipc);

    assert_eq!(phase, Phase::Suspend);
    assert_eq!(
        performed,
        vec![
            BootAction::InstallLogger,
            BootAction::InitHeap,
            BootAction::RunValidate,
            BootAction::RunConstruct,
            BootAction::RunHandoff,
            BootAction::RunStart,
            BootAction::SuspendSelf,
        ]
    );
    // All three declared objects got original capabilities.
    for id in 0..3 {
        assert_eq!(state.get_orig_cap(id), 1000 + id);
    }
    assert_eq!(state.get_orig_cap(3), EMPTY_CAP);
    // Both untyped regions were recorded and forwarded, tags preserved.
    assert_eq!(state.get_untyped_cptr(0), 100);
    assert_eq!(state.get_untyped_cptr(1), 101);
    assert_eq!(bd.untyped.len(), 2);
    assert!(bd.untyped[0].is_tainted());
    assert!(!bd.untyped[1].is_tainted());
    assert_eq!(bd.untyped[0].get_state(), RegionState::HandedOff);
    assert_eq!(bd.untyped[1].get_state(), RegionState::HandedOff);
}

#[test]
fn failed_validation_aborts_before_construction() {
    let mut state = CantripOsModelState::new();
    let mut bd = descriptor(CONFIG_CAPDL_LOADER_MAX_OBJECTS - 1, &[true, false]);
    let sd = small_model();
    let ipc = bd.ipc_buffer;

    let (phase, performed) = run_boot(&mut state, &mut bd, &sd, ipc);

    assert_eq!(phase, Phase::Aborted);
    assert!(!performed.contains(&BootAction::RunConstruct));
    assert!(!performed.contains(&BootAction::RunHandoff));
    assert!(!performed.contains(&BootAction::RunStart));
    assert!(!performed.contains(&BootAction::SuspendSelf));
    assert_eq!(
        performed,
        vec![BootAction::InstallLogger, BootAction::InitHeap, BootAction::RunValidate]
    );
    // Nothing was constructed and nothing was handed off.
    assert_eq!(state.get_orig_cap(0), EMPTY_CAP);
    assert_eq!(bd.untyped[0].get_state(), RegionState::Owned);
    assert_eq!(bd.untyped[1].get_state(), RegionState::Owned);
}

#[test]
fn too_many_boot_untyped_regions_abort_before_construction() {
    let mut state = CantripOsModelState::new();
    let tags = vec![false; CONFIG_MAX_NUM_BOOTINFO_UNTYPED_CAPS + 1];
    let mut bd = descriptor(CONFIG_CAPDL_LOADER_MAX_OBJECTS, &tags);
    let sd = small_model();
    let ipc = bd.ipc_buffer;

    assert_eq!(
        validate(&state, &bd, &sd, ipc),
        Err(BootError::TooManyUntypedRegions {
            requested: CONFIG_MAX_NUM_BOOTINFO_UNTYPED_CAPS + 1,
            capacity: CONFIG_MAX_NUM_BOOTINFO_UNTYPED_CAPS,
        })
    );

    let (phase, performed) = run_boot(&mut state, &mut bd, &sd, ipc);
    assert_eq!(phase, Phase::Aborted);
    assert!(!performed.contains(&BootAction::RunConstruct));
}

#[test]
fn orchestrator_phases_run_in_order() {
    let mut o = BootOrchestrator::new();
    assert_eq!(o.current_phase(), Phase::LoggerInit);
    assert!(!o.is_terminal());
    o.advance(true);
    assert_eq!(o.current_phase(), Phase::HeapInit);
    o.advance(true);
    assert_eq!(o.current_phase(), Phase::Validate);
    o.advance(true);
    assert_eq!(o.current_phase(), Phase::Construct);
    o.advance(true);
    assert_eq!(o.current_phase(), Phase::Handoff);
    o.advance(true);
    assert_eq!(o.current_phase(), Phase::Start);
    o.advance(true);
    assert_eq!(o.current_phase(), Phase::Suspend);
    assert!(o.is_terminal());
    assert_eq!(o.current_action(), Some(BootAction::SuspendSelf));
    // Terminal: no outgoing transition.
    o.advance(true);
    assert_eq!(o.current_phase(), Phase::Suspend);
}

#[test]
fn construction_failure_aborts() {
    let mut o = BootOrchestrator::new();
    o.advance(true); // logger
    o.advance(true); // heap
    o.advance(true); // validate
    assert_eq!(o.current_phase(), Phase::Construct);
    o.advance(false);
    assert_eq!(o.current_phase(), Phase::Aborted);
    assert_eq!(o.current_action(), None);
    assert!(o.is_terminal());
    o.advance(true);
    assert_eq!(o.current_phase(), Phase::Aborted);
}

#[test]
fn short_log_line_is_emitted_whole() {
    let target = b"rootserver".to_vec();
    let message = b"hello boot".to_vec();
    let line = format_log_line(&target, &message);
    assert_eq!(line, b"rootserver:hello boot".to_vec());
}

#[test]
fn log_line_filling_the_buffer_exactly_is_not_truncated() {
    let target = b"t".to_vec();
    let message = vec![b'x'; LOG_BUFFER_SIZE - 2]; // target + ':' + message == 1024
    let line = format_log_line(&target, &message);
    assert_eq!(line.len(), LOG_BUFFER_SIZE);
    assert_eq!(&line[..2], b"t:");
    assert!(line[2..].iter().all(|&b| b == b'x'));
}

#[test]
fn oversized_log_line_is_truncated_with_marker() {
    let target = b"capdl".to_vec();
    let message = vec![b'm'; 2000];
    let line = format_log_line(&target, &message);
    assert_eq!(line.len(), LOG_BUFFER_SIZE);
    assert_eq!(&line[..6], b"capdl:");
    assert!(line[6..LOG_BUFFER_SIZE - 3].iter().all(|&b| b == b'm'));
    assert_eq!(&line[LOG_BUFFER_SIZE - 3..], b"...");

    // A later, well-sized record is unaffected.
    let next = format_log_line(&b"capdl".to_vec(), &b"ok".to_vec());
    assert_eq!(next, b"capdl:ok".to_vec());
}

#[test]
fn oversized_target_is_truncated_with_marker() {
    let target = vec![b't'; 1500];
    let message = b"m".to_vec();
    let line = format_log_line(&target, &message);
    assert_eq!(line.len(), LOG_BUFFER_SIZE);
    assert!(line[..LOG_BUFFER_SIZE - 3].iter().all(|&b| b == b't'));
    assert_eq!(&line[LOG_BUFFER_SIZE - 3..], b"...");
}

#[test]
fn image_layout_accounts_all_three_extents() {
    // 4 MiB executable holding a 1 MiB model and a 2 MiB archive.
    let layout = image_layout(0x10000, 0x410000, 0x20000, 0x220000, 0x100000);
    assert_eq!(layout.model_bytes, 0x100000);
    assert_eq!(layout.archive_bytes, 0x200000);
    assert_eq!(layout.rootserver_bytes, 0x100000);
}

#[test]
fn image_layout_tolerates_zero_length_archive() {
    let layout = image_layout(0x10000, 0x110000, 0x20000, 0x20000, 0x40000);
    assert_eq!(layout.archive_bytes, 0);
    assert_eq!(layout.model_bytes, 0x40000);
    assert_eq!(layout.rootserver_bytes, 0x100000 - 0x40000);
}
