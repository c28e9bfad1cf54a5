use probe_rs::arch::CoreType;
use probe_rs::config::{
    get_target_by_chip_info, ArmChipInfo, ChipInfo, Registry, RegistryEntry, Target,
    TargetSelector,
};
use probe_rs::error::{Error, RegistryError};
use probe_rs::probe::{ArmScanOutcome, HwCore, Probe};
use probe_rs::session::{get_target_from_selector, try_arm_autodetect};

fn bare_probe(has_dap: bool, has_jtag: bool, arm_scan: ArmScanOutcome) -> Probe {
    Probe {
        has_dap,
        has_jtag,
        arm_scan,
        idcode: 0x1000_563d,
        reset_deassert_ok: true,
        reset_asserted: false,
        halt_delay: None,
        cores: Vec::<HwCore>::new(),
    }
}

fn entry(name: &str, core_type: CoreType, identity: Option<ChipInfo>) -> RegistryEntry {
    RegistryEntry {
        target: Target {
            name: name.to_string(),
            core_type,
            core_count: 1,
            memory_map: Vec::new(),
            flash_algorithms: Vec::new(),
        },
        identity,
    }
}

#[test]
fn auto_on_arm_transport_resolves_through_identity_lookup() {
    let chip = ArmChipInfo { manufacturer: 0x20, part: 0x0444 };
    let registry = Registry {
        entries: vec![
            entry("unrelated", CoreType::M0, None),
            entry("found-by-scan", CoreType::M4, Some(ChipInfo::Arm(chip))),
        ],
    };
    let probe = bare_probe(true, false, ArmScanOutcome::Identified(chip));

    let resolved = get_target_from_selector(TargetSelector::Auto, &registry, &probe).unwrap();
    let looked_up = get_target_by_chip_info(&registry, ChipInfo::Arm(chip)).unwrap();
    assert_eq!(resolved.name, looked_up.name);
    assert_eq!(resolved.core_type, looked_up.core_type);
    assert_eq!(resolved.core_count, looked_up.core_count);
    assert_eq!(resolved.name, "found-by-scan");
}

#[test]
fn auto_on_riscv_only_transport_fails_autodetection() {
    // no ARM interface: the ARM step is skipped without error; the RISC-V
    // identification code is read but never mapped, so resolution fails
    let registry = Registry { entries: vec![entry("rv", CoreType::Riscv, None)] };
    let probe = bare_probe(false, true, ArmScanOutcome::NotIdentified);
    let r = get_target_from_selector(TargetSelector::Auto, &registry, &probe);
    assert_eq!(
        r.unwrap_err(),
        Error::ChipNotFound(RegistryError::AutodetectFailed)
    );
}

#[test]
fn auto_with_no_interfaces_fails_autodetection() {
    let probe = bare_probe(false, false, ArmScanOutcome::NotIdentified);
    let r = get_target_from_selector(TargetSelector::Auto, &Registry { entries: Vec::new() }, &probe);
    assert_eq!(
        r.unwrap_err(),
        Error::ChipNotFound(RegistryError::AutodetectFailed)
    );
}

#[test]
fn scan_fault_is_downgraded_to_not_identified() {
    // a protocol error while scanning the identification table must not
    // abort resolution: it only means nothing was identified
    let probe = bare_probe(true, false, ArmScanOutcome::Fault);
    assert_eq!(try_arm_autodetect(&probe).unwrap(), None);

    let r = get_target_from_selector(TargetSelector::Auto, &Registry { entries: Vec::new() }, &probe);
    assert_eq!(
        r.unwrap_err(),
        Error::ChipNotFound(RegistryError::AutodetectFailed)
    );
}

#[test]
fn arm_autodetect_reports_the_scanned_identity() {
    let chip = ArmChipInfo { manufacturer: 0x20, part: 0x0410 };
    let probe = bare_probe(true, false, ArmScanOutcome::Identified(chip));
    assert_eq!(try_arm_autodetect(&probe).unwrap(), Some(ChipInfo::Arm(chip)));

    let probe = bare_probe(true, false, ArmScanOutcome::NotIdentified);
    assert_eq!(try_arm_autodetect(&probe).unwrap(), None);
}

#[test]
fn identified_chip_missing_from_registry_is_reported() {
    let chip = ArmChipInfo { manufacturer: 0x77, part: 0x1 };
    let probe = bare_probe(true, false, ArmScanOutcome::Identified(chip));
    let r = get_target_from_selector(TargetSelector::Auto, &Registry { entries: Vec::new() }, &probe);
    assert_eq!(
        r.unwrap_err(),
        Error::ChipNotFound(RegistryError::NameNotFound)
    );
}

#[test]
fn specified_selector_is_used_verbatim() {
    let probe = bare_probe(false, false, ArmScanOutcome::NotIdentified);
    let target = Target {
        name: "given".to_string(),
        core_type: CoreType::M33,
        core_count: 2,
        memory_map: Vec::new(),
        flash_algorithms: Vec::new(),
    };
    let resolved = get_target_from_selector(
        TargetSelector::Specified(target),
        &Registry { entries: Vec::new() },
        &probe,
    )
    .unwrap();
    assert_eq!(resolved.name, "given");
    assert_eq!(resolved.core_count, 2);
}
