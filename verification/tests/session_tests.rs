use probe_rs::arch::{Architecture, CoreType};
use probe_rs::config::{
    get_target_by_chip_info, get_target_by_name, ArmChipInfo, ChipInfo, MemoryRange,
    MemoryRegion, RawFlashAlgorithm, Registry, RegistryEntry, Target, TargetSelector,
};
use probe_rs::error::{Error, RegistryError};
use probe_rs::probe::{ArmScanOutcome, DebugProbeInfo, HwCore, Probe};
use probe_rs::session::{
    ArchitectureInterfaceState, ArmCommunicationInterfaceState, AttachMethod,
    RiscvCommunicationInterfaceState, Session,
};

fn quiet_core() -> HwCore {
    HwCore {
        hw_breakpoints: 0,
        clear_count: 0,
        clear_fail_from: None,
        debug_enabled: false,
        reset_catch: false,
        halted: false,
    }
}

fn probe_with(has_dap: bool, has_jtag: bool, cores: Vec<HwCore>) -> Probe {
    Probe {
        has_dap,
        has_jtag,
        arm_scan: ArmScanOutcome::NotIdentified,
        idcode: 0,
        reset_deassert_ok: true,
        reset_asserted: false,
        halt_delay: None,
        cores,
    }
}

fn target_named(name: &str, core_type: CoreType, core_count: usize) -> Target {
    Target {
        name: name.to_string(),
        core_type,
        core_count,
        memory_map: Vec::new(),
        flash_algorithms: Vec::new(),
    }
}

fn empty_registry() -> Registry {
    Registry { entries: Vec::new() }
}

#[test]
fn core_succeeds_iff_interface_present_and_in_range() {
    let probe = probe_with(true, false, vec![quiet_core(); 2]);
    let target = target_named("dual", CoreType::M4, 2);
    let mut session = Session::new(
        probe,
        &empty_registry(),
        TargetSelector::Specified(target),
        AttachMethod::Normal,
    )
    .unwrap();

    let core0 = session.get_core(0).unwrap();
    assert_eq!(core0.index, 0);
    assert_eq!(core0.core_type, CoreType::M4);
    assert_eq!(core0.architecture, Architecture::Arm);
    assert!(!core0.core_halted());

    assert!(session.get_core(1).is_ok());
    assert_eq!(session.get_core(2).unwrap_err(), Error::CoreNotFound(2));
    assert_eq!(session.get_core(100).unwrap_err(), Error::CoreNotFound(100));
}

#[test]
fn construction_fails_when_interface_absent() {
    // an ARM target on a transport without a DAP interface
    let probe = probe_with(false, true, vec![quiet_core()]);
    let target = target_named("armchip", CoreType::M0, 1);
    let r = Session::new(
        probe,
        &empty_registry(),
        TargetSelector::Specified(target),
        AttachMethod::Normal,
    );
    assert_eq!(r.unwrap_err(), Error::InterfaceUnavailable(Architecture::Arm));

    // a RISC-V target on a transport without JTAG
    let probe = probe_with(true, false, vec![quiet_core()]);
    let target = target_named("rvchip", CoreType::Riscv, 1);
    let r = Session::new(
        probe,
        &empty_registry(),
        TargetSelector::Specified(target),
        AttachMethod::Normal,
    );
    assert_eq!(r.unwrap_err(), Error::InterfaceUnavailable(Architecture::Riscv));
}

#[test]
fn architecture_matches_specified_target() {
    let probe = probe_with(true, false, vec![quiet_core()]);
    let target = target_named("armchip", CoreType::M33, 1);
    let session = Session::new(
        probe,
        &empty_registry(),
        TargetSelector::Specified(target),
        AttachMethod::Normal,
    )
    .unwrap();
    assert_eq!(session.architecture(), Architecture::Arm);

    let probe = probe_with(false, true, vec![quiet_core()]);
    let target = target_named("rvchip", CoreType::Riscv, 1);
    let session = Session::new(
        probe,
        &empty_registry(),
        TargetSelector::Specified(target),
        AttachMethod::Normal,
    )
    .unwrap();
    assert_eq!(session.architecture(), Architecture::Riscv);
}

#[test]
fn architecture_matches_named_target() {
    let registry = Registry {
        entries: vec![RegistryEntry {
            target: target_named("stm32", CoreType::M4, 1),
            identity: None,
        }],
    };
    let probe = probe_with(true, false, vec![quiet_core()]);
    let session = Session::new(
        probe,
        &registry,
        TargetSelector::Unspecified("stm32".to_string()),
        AttachMethod::Normal,
    )
    .unwrap();
    assert_eq!(session.architecture(), Architecture::Arm);
}

#[test]
fn architecture_matches_autodetected_target() {
    let chip = ArmChipInfo { manufacturer: 0x20, part: 0x0410 };
    let registry = Registry {
        entries: vec![RegistryEntry {
            target: target_named("detected", CoreType::M3, 1),
            identity: Some(ChipInfo::Arm(chip)),
        }],
    };
    let mut probe = probe_with(true, false, vec![quiet_core()]);
    probe.arm_scan = ArmScanOutcome::Identified(chip);
    let session =
        Session::new(probe, &registry, TargetSelector::Auto, AttachMethod::Normal).unwrap();
    assert_eq!(session.architecture(), Architecture::Arm);
}

#[test]
fn name_lookup_miss_fails_resolution() {
    let probe = probe_with(true, false, vec![quiet_core()]);
    let r = Session::new(
        probe,
        &empty_registry(),
        TargetSelector::Unspecified("no-such-chip".to_string()),
        AttachMethod::Normal,
    );
    assert_eq!(
        r.unwrap_err(),
        Error::ChipNotFound(RegistryError::NameNotFound)
    );
}

#[test]
fn reset_under_debug_succeeds_when_halt_arrives_in_budget() {
    let mut probe = probe_with(true, false, vec![quiet_core()]);
    probe.halt_delay = Some(5);
    let target = target_named("armchip", CoreType::M4, 1);
    let mut session = Session::new(
        probe,
        &empty_registry(),
        TargetSelector::Specified(target),
        AttachMethod::UnderReset,
    )
    .unwrap();
    let core0 = session.get_core(0).unwrap();
    assert!(core0.core_halted());

    // a halt arriving on the very last query of the budget still counts
    let mut probe = probe_with(true, false, vec![quiet_core()]);
    probe.halt_delay = Some(99);
    let target = target_named("armchip", CoreType::M4, 1);
    assert!(Session::new(
        probe,
        &empty_registry(),
        TargetSelector::Specified(target),
        AttachMethod::UnderReset,
    )
    .is_ok());
}

#[test]
fn reset_under_debug_times_out_when_halt_never_arrives() {
    let probe = probe_with(true, false, vec![quiet_core()]);
    let target = target_named("armchip", CoreType::M4, 1);
    let r = Session::new(
        probe,
        &empty_registry(),
        TargetSelector::Specified(target),
        AttachMethod::UnderReset,
    );
    assert_eq!(r.unwrap_err(), Error::Timeout);

    // a halt scheduled right after the budget expires is a timeout too
    let mut probe = probe_with(true, false, vec![quiet_core()]);
    probe.halt_delay = Some(100);
    let target = target_named("armchip", CoreType::M4, 1);
    let r = Session::new(
        probe,
        &empty_registry(),
        TargetSelector::Specified(target),
        AttachMethod::UnderReset,
    );
    assert_eq!(r.unwrap_err(), Error::Timeout);
}

#[test]
fn reset_deassert_failure_aborts_construction() {
    let mut probe = probe_with(true, false, vec![quiet_core()]);
    probe.reset_deassert_ok = false;
    probe.halt_delay = Some(0);
    let target = target_named("armchip", CoreType::M4, 1);
    let r = Session::new(
        probe,
        &empty_registry(),
        TargetSelector::Specified(target),
        AttachMethod::UnderReset,
    );
    assert_eq!(r.unwrap_err(), Error::Transport);
}

#[test]
fn clear_all_fails_on_first_failing_core_without_rollback() {
    // three cores; core 1 accepts exactly one clear (the one during
    // construction) and fails from the second invocation on
    let mut cores = vec![quiet_core(); 3];
    cores[1].clear_fail_from = Some(1);
    let probe = probe_with(true, false, cores);
    let target = target_named("triple", CoreType::M4, 3);
    let mut session = Session::new(
        probe,
        &empty_registry(),
        TargetSelector::Specified(target),
        AttachMethod::Normal,
    )
    .unwrap();

    // the construction-time clear succeeded on all cores; the next sweep
    // fails at core 1, after core 0's clear has already taken effect
    assert_eq!(session.clear_all_hw_breakpoints().unwrap_err(), Error::Transport);
}

#[test]
fn clear_all_succeeds_on_cooperative_hardware() {
    let mut cores = vec![quiet_core(); 2];
    cores[0].hw_breakpoints = 4;
    cores[1].hw_breakpoints = 2;
    let probe = probe_with(true, false, cores);
    let target = target_named("dual", CoreType::M4, 2);
    let mut session = Session::new(
        probe,
        &empty_registry(),
        TargetSelector::Specified(target),
        AttachMethod::Normal,
    )
    .unwrap();
    assert!(session.clear_all_hw_breakpoints().is_ok());
}

#[test]
fn close_swallows_clear_failure_and_reports_diagnostic() {
    let mut cores = vec![quiet_core()];
    cores[0].clear_fail_from = Some(1);
    let probe = probe_with(true, false, cores);
    let target = target_named("fragile", CoreType::M0, 1);
    let session = Session::new(
        probe,
        &empty_registry(),
        TargetSelector::Specified(target),
        AttachMethod::Normal,
    )
    .unwrap();
    let diagnostic = session.close();
    assert_eq!(
        diagnostic,
        Some("could not clear all hardware breakpoints".to_string())
    );
}

#[test]
fn close_is_silent_when_teardown_clear_succeeds() {
    let probe = probe_with(true, false, vec![quiet_core()]);
    let target = target_named("healthy", CoreType::M0, 1);
    let session = Session::new(
        probe,
        &empty_registry(),
        TargetSelector::Specified(target),
        AttachMethod::Normal,
    )
    .unwrap();
    assert_eq!(session.close(), None);
}

#[test]
fn list_cores_enumerates_declared_cores_in_order() {
    // the transport's core table may start empty: the declared cores exist
    // on the chip regardless
    let probe = probe_with(true, false, Vec::new());
    let target = target_named("triple", CoreType::M3, 3);
    let session = Session::new(
        probe,
        &empty_registry(),
        TargetSelector::Specified(target),
        AttachMethod::Normal,
    )
    .unwrap();
    assert_eq!(
        session.list_cores(),
        vec![(0, CoreType::M3), (1, CoreType::M3), (2, CoreType::M3)]
    );
}

#[test]
fn memory_map_and_flash_algorithms_expose_the_descriptor() {
    let mut target = target_named("mapped", CoreType::M4, 1);
    target.memory_map = vec![
        MemoryRegion::Ram(MemoryRange { start: 0x2000_0000, length: 0x1_0000 }),
        MemoryRegion::Flash(MemoryRange { start: 0x0800_0000, length: 0x10_0000 }),
    ];
    target.flash_algorithms = vec![RawFlashAlgorithm {
        name: "loader".to_string(),
        load_address: 0x2000_0400,
    }];
    let probe = probe_with(true, false, vec![quiet_core()]);
    let session = Session::new(
        probe,
        &empty_registry(),
        TargetSelector::Specified(target),
        AttachMethod::Normal,
    )
    .unwrap();

    let map = session.memory_map();
    assert_eq!(map.len(), 2);
    assert!(matches!(map[0], MemoryRegion::Ram(r) if r.start == 0x2000_0000));
    assert!(matches!(map[1], MemoryRegion::Flash(r) if r.length == 0x10_0000));

    let algorithms = session.flash_algorithms();
    assert_eq!(algorithms.len(), 1);
    assert_eq!(algorithms[0].name, "loader");
    assert_eq!(algorithms[0].load_address, 0x2000_0400);
}

#[test]
fn auto_attach_opens_the_first_probe() {
    let probe = probe_with(true, false, vec![quiet_core()]);
    let target = target_named("armchip", CoreType::M4, 1);
    let probes = vec![DebugProbeInfo { probe, open_fails: false }];
    let session = Session::auto_attach(
        probes,
        &empty_registry(),
        TargetSelector::Specified(target),
    )
    .unwrap();
    assert_eq!(session.architecture(), Architecture::Arm);
}

#[test]
fn auto_attach_reports_a_failing_adapter() {
    let probe = probe_with(true, false, vec![quiet_core()]);
    let target = target_named("armchip", CoreType::M4, 1);
    let probes = vec![DebugProbeInfo { probe, open_fails: true }];
    let r = Session::auto_attach(probes, &empty_registry(), TargetSelector::Specified(target));
    assert_eq!(r.unwrap_err(), Error::Transport);
}

#[test]
fn interface_state_variant_encodes_the_architecture() {
    let arm = ArchitectureInterfaceState::Arm(ArmCommunicationInterfaceState::new());
    assert_eq!(Architecture::from(arm), Architecture::Arm);
    let riscv = ArchitectureInterfaceState::Riscv(RiscvCommunicationInterfaceState::new());
    assert_eq!(Architecture::from(riscv), Architecture::Riscv);
}

#[test]
fn get_target_by_name_returns_the_first_match() {
    let registry = Registry {
        entries: vec![
            RegistryEntry { target: target_named("chip", CoreType::M0, 1), identity: None },
            RegistryEntry { target: target_named("chip", CoreType::M4, 2), identity: None },
        ],
    };
    let t = get_target_by_name(&registry, "chip").unwrap();
    assert_eq!(t.name, "chip");
    assert_eq!(t.core_type, CoreType::M0);
    assert_eq!(t.core_count, 1);

    assert_eq!(
        get_target_by_name(&registry, "other").unwrap_err(),
        RegistryError::NameNotFound
    );
}

#[test]
fn get_target_by_chip_info_looks_up_identities() {
    let chip = ArmChipInfo { manufacturer: 0x41, part: 0xc24 };
    let other = ArmChipInfo { manufacturer: 0x41, part: 0xc60 };
    let registry = Registry {
        entries: vec![RegistryEntry {
            target: target_named("identified", CoreType::M4, 1),
            identity: Some(ChipInfo::Arm(chip)),
        }],
    };
    let t = get_target_by_chip_info(&registry, ChipInfo::Arm(chip)).unwrap();
    assert_eq!(t.name, "identified");
    assert_eq!(
        get_target_by_chip_info(&registry, ChipInfo::Arm(other)).unwrap_err(),
        RegistryError::NameNotFound
    );
}
