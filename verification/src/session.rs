//! The debug session: attach orchestration, core access and breakpoint
//! lifecycle.
//!
//! A [`Session`] owns one transport handle, the resolved target descriptor,
//! the architecture interface state and one entry per declared core. It is
//! built by [`Session::new`], which resolves the target selector, runs the
//! optional reset-under-debug sequence and clears every core's hardware
//! breakpoints before handing the session out; any failure on the way aborts
//! construction and no partial session is returned.

use vstd::prelude::*;

use crate::arch::{Architecture, Core, CoreState, CoreType, SpecificCoreState};
use crate::config::{
    get_target_by_chip_info, get_target_by_name, lemma_find_by_chip_info_is_entry,
    lemma_find_by_name_is_entry, spec_find_by_chip_info, spec_find_by_name, ChipInfo,
    MemoryRegion, RawFlashAlgorithm, Registry, Target, TargetSelector,
};
use crate::error::{Error, RegistryError};
use crate::probe::{
    same_adapter, ArmScanOutcome, DebugProbeInfo, HwCore, Probe,
};

verus! {

/// How many halt-status queries the reset-under-debug sequence may issue
/// before reporting a timeout: one query per millisecond of the 100 ms wait
/// budget.
pub const RESET_HALT_POLL_BUDGET: u32 = 100;

/// How the session attaches to the target.
#[derive(Clone, Copy, Debug, PartialEq, Eq, Structural)]
pub enum AttachMethod {
    /// Attach to the running target as it is.
    Normal,
    /// Catch the target halted right out of reset before attaching.
    UnderReset,
}

/// Protocol state of the ARM debug-access-port interface that persists
/// across repeated attach calls. The wire-level details live in the
/// transport collaborator; this records whether the interface has been
/// brought up on it.
#[derive(Clone, Copy, Debug, PartialEq, Eq, Structural)]
pub struct ArmCommunicationInterfaceState {
    /// Whether the interface has been built on the transport.
    pub initialized: bool,
}

impl ArmCommunicationInterfaceState {
    /// Fresh protocol state: the interface has not been built yet.
    pub fn new() -> (r: Self)
        ensures
            !r.initialized,
    {
        ArmCommunicationInterfaceState { initialized: false }
    }
}

/// Protocol state of the RISC-V JTAG debug-module interface that persists
/// across repeated attach calls.
#[derive(Clone, Copy, Debug, PartialEq, Eq, Structural)]
pub struct RiscvCommunicationInterfaceState {
    /// Whether the interface has been built on the transport.
    pub initialized: bool,
}

impl RiscvCommunicationInterfaceState {
    /// Fresh protocol state: the interface has not been built yet.
    pub fn new() -> (r: Self)
        ensures
            !r.initialized,
    {
        RiscvCommunicationInterfaceState { initialized: false }
    }
}

/// The architecture interface state of a session: a closed two-variant
/// union whose variant is fixed once, at target resolution, and never
/// re-tagged for the session's lifetime.
#[derive(Clone, Copy, Debug, PartialEq, Eq, Structural)]
pub enum ArchitectureInterfaceState {
    Arm(ArmCommunicationInterfaceState),
    Riscv(RiscvCommunicationInterfaceState),
}

impl ArchitectureInterfaceState {
    /// The architecture this interface state speaks.
    pub open spec fn spec_architecture(&self) -> Architecture {
        match self {
            ArchitectureInterfaceState::Arm(_) => Architecture::Arm,
            ArchitectureInterfaceState::Riscv(_) => Architecture::Riscv,
        }
    }

    /// Whether the interface has been built on the transport.
    pub open spec fn spec_initialized(&self) -> bool {
        match self {
            ArchitectureInterfaceState::Arm(state) => state.initialized,
            ArchitectureInterfaceState::Riscv(state) => state.initialized,
        }
    }

    /// Turns the transport plus one core's state into a transient core
    /// handle, by building this architecture's communication interface over
    /// the transport.
    ///
    /// The matching interface must be present on the transport, else the
    /// attach fails with [`Error::InterfaceUnavailable`]; plain absence is
    /// the only failure. The variant is preserved in every outcome.
    pub fn attach(
        &mut self,
        probe: &Probe,
        n: usize,
        core: &SpecificCoreState,
        core_state: &CoreState,
    ) -> (r: Result<Core, Error>)
        ensures
            final(self).spec_architecture() == old(self).spec_architecture(),
            probe.has_interface(old(self).spec_architecture()) ==> r == Ok::<Core, Error>(
                Core {
                    index: n,
                    core_type: core.spec_core_type(),
                    architecture: old(self).spec_architecture(),
                    halted: core_state.halted,
                },
            ) && final(self).spec_initialized(),
            !probe.has_interface(old(self).spec_architecture()) ==> r == Err::<Core, Error>(
                Error::InterfaceUnavailable(old(self).spec_architecture()),
            ) && *final(self) == *old(self),
    {
        match self {
            ArchitectureInterfaceState::Arm(state) => {
                if probe.has_dap_interface() {
                    state.initialized = true;
                    Ok(
                        Core {
                            index: n,
                            core_type: core.core_type(),
                            architecture: Architecture::Arm,
                            halted: core_state.halted,
                        },
                    )
                } else {
                    Err(Error::InterfaceUnavailable(Architecture::Arm))
                }
            },
            ArchitectureInterfaceState::Riscv(state) => {
                if probe.has_jtag_interface() {
                    state.initialized = true;
                    Ok(
                        Core {
                            index: n,
                            core_type: core.core_type(),
                            architecture: Architecture::Riscv,
                            halted: core_state.halted,
                        },
                    )
                } else {
                    Err(Error::InterfaceUnavailable(Architecture::Riscv))
                }
            },
        }
    }
}

impl From<ArchitectureInterfaceState> for Architecture {
    fn from(value: ArchitectureInterfaceState) -> (r: Architecture) {
        match value {
            ArchitectureInterfaceState::Arm(_) => Architecture::Arm,
            ArchitectureInterfaceState::Riscv(_) => Architecture::Riscv,
        }
    }
}

impl vstd::std_specs::convert::FromSpecImpl<ArchitectureInterfaceState> for Architecture {
    open spec fn obeys_from_spec() -> bool {
        true
    }

    open spec fn from_spec(value: ArchitectureInterfaceState) -> Architecture {
        value.spec_architecture()
    }
}

/// The chip identity the ARM autodetection path yields on a given
/// transport: the identity the scan of the identification table reports,
/// with scan faults downgraded to "not identified".
pub open spec fn spec_arm_autodetect(p: Probe) -> Option<ChipInfo> {
    match p.arm_scan {
        ArmScanOutcome::Identified(c) => Some(ChipInfo::Arm(c)),
        _ => None,
    }
}

/// The chip identity autodetection yields on a given transport. ARM is
/// probed first, through the DAP interface when one is present; the RISC-V
/// fallback reads an identification code but mapping it to a chip identity
/// is not implemented, so it never yields one.
pub open spec fn spec_autodetect(p: Probe) -> Option<ChipInfo> {
    if p.has_dap {
        spec_arm_autodetect(p)
    } else {
        None
    }
}

/// What a target selector resolves to on a given registry and transport.
pub open spec fn spec_resolve(selector: TargetSelector, registry: Registry, probe: Probe) -> Result<
    Target,
    Error,
> {
    match selector {
        TargetSelector::Specified(t) => Ok(t),
        TargetSelector::Unspecified(name) => match spec_find_by_name(registry.entries@, name@) {
            Some(t) => Ok(t),
            None => Err(Error::ChipNotFound(RegistryError::NameNotFound)),
        },
        TargetSelector::Auto => match spec_autodetect(probe) {
            Some(chip) => match spec_find_by_chip_info(registry.entries@, chip) {
                Some(t) => Ok(t),
                None => Err(Error::ChipNotFound(RegistryError::NameNotFound)),
            },
            None => Err(Error::ChipNotFound(RegistryError::AutodetectFailed)),
        },
    }
}

/// A well-formed registry and a well-formed selector only ever resolve to a
/// well-formed target descriptor.
pub proof fn lemma_resolve_wf(selector: TargetSelector, registry: Registry, probe: Probe)
    requires
        registry.wf(),
        selector.wf(),
    ensures
        spec_resolve(selector, registry, probe) matches Ok(t) ==> t.wf(),
{
    match selector {
        TargetSelector::Specified(_) => {},
        TargetSelector::Unspecified(name) => {
            lemma_find_by_name_is_entry(registry.entries@, name@);
        },
        TargetSelector::Auto => {
            match spec_autodetect(probe) {
                Some(chip) => {
                    lemma_find_by_chip_info_is_entry(registry.entries@, chip);
                },
                None => {},
            }
        },
    }
}

/// Probes the chip for an ARM identity over the DAP interface, which must
/// be present on the transport.
///
/// A protocol error during the identification scan means "not identified",
/// never a hard failure: a non-ARM chip legitimately has no identification
/// table, and its absence must not abort autodetection.
pub fn try_arm_autodetect(probe: &Probe) -> (r: Result<Option<ChipInfo>, Error>)
    requires
        probe.has_dap,
    ensures
        r == Ok::<Option<ChipInfo>, Error>(spec_arm_autodetect(*probe)),
{
    let found_chip = match probe.scan_arm_rom_table() {
        Ok(c) => c,
        Err(_) => None,
    };
    match found_chip {
        Some(c) => Ok(Some(ChipInfo::from(c))),
        None => Ok(None),
    }
}

/// Resolves a target selector to a concrete target descriptor.
///
/// A `Specified` descriptor is used verbatim; an `Unspecified` name is
/// looked up in the registry; `Auto` probes the attached silicon, trying
/// ARM first and falling back to reading a RISC-V identification code over
/// JTAG, for which no identity mapping exists yet.
pub fn get_target_from_selector(
    target: TargetSelector,
    registry: &Registry,
    probe: &Probe,
) -> (r: Result<Target, Error>)
    ensures
        ({
            let expected = spec_resolve(target, *registry, *probe);
            match r {
                Ok(rt) => expected matches Ok(t) && rt@ == t@,
                Err(e) => expected matches Err(e2) && e == e2,
            }
        }),
{
    match target {
        TargetSelector::Unspecified(name) => match get_target_by_name(registry, name.as_str()) {
            Ok(t) => Ok(t),
            Err(e) => Err(Error::ChipNotFound(e)),
        },
        TargetSelector::Specified(t) => Ok(t),
        TargetSelector::Auto => {
            let mut found_chip: Option<ChipInfo> = None;

            if probe.has_dap_interface() {
                let chip_result = try_arm_autodetect(probe);
                // errors during autodetection are ignored
                found_chip = match chip_result {
                    Ok(c) => c,
                    Err(_) => None,
                };
            }
            // no DAP interface present: not an ARM core, skip ARM autodetect

            if found_chip.is_none() && probe.has_jtag_interface() {
                // the identification code is read over JTAG, but mapping it
                // to a chip identity is a known incomplete capability
                let _idcode = probe.read_idcode();
            }

            match found_chip {
                Some(chip) => match get_target_by_chip_info(registry, chip) {
                    Ok(t) => Ok(t),
                    Err(e) => Err(Error::ChipNotFound(e)),
                },
                None => Err(Error::ChipNotFound(RegistryError::AutodetectFailed)),
            }
        },
    }
}

/// Whether clearing the hardware breakpoints of every one of `k` cores
/// succeeds on a transport: the architecture's interface is present and no
/// core's clear fails.
pub open spec fn spec_clear_all_ok(p: Probe, arch: Architecture, k: int) -> bool {
    k == 0 || (p.has_interface(arch) && p.clear_ok(k))
}

/// Whether constructing a session over a resolved target succeeds on a
/// transport: the matching interface is present, the reset-under-debug
/// sequence (when asked for) deasserts the reset line and observes the
/// halt within the wait budget, and every core's breakpoint clear succeeds.
pub open spec fn spec_attach_ok(p: Probe, t: Target, method: AttachMethod) -> bool {
    &&& p.has_interface(t.spec_architecture())
    &&& method is UnderReset ==> p.reset_deassert_ok && p.halts_within(
        0,
        RESET_HALT_POLL_BUDGET as int,
    )
    &&& p.clear_ok(t.core_count as int)
}

/// The error session construction reports over a resolved target when
/// `spec_attach_ok` does not hold, following the order of the attach steps.
pub open spec fn spec_attach_err(p: Probe, t: Target, method: AttachMethod) -> Error {
    if !p.has_interface(t.spec_architecture()) {
        Error::InterfaceUnavailable(t.spec_architecture())
    } else if method is UnderReset && !p.reset_deassert_ok {
        Error::Transport
    } else if method is UnderReset && !p.halts_within(0, RESET_HALT_POLL_BUDGET as int) {
        Error::Timeout
    } else {
        Error::Transport
    }
}

/// The hardware state of core `n` once a session over `k` cores has been
/// constructed on a transport whose cores started as in `pre`: every core
/// below `k` had its breakpoints cleared by exactly one invocation, and
/// under reset-under-debug core 0 was additionally debug-enabled and caught
/// halted, with the reset-catch condition cleared again.
pub open spec fn spec_hw_after_attach(pre: Probe, k: int, method: AttachMethod, n: int) -> HwCore {
    if 0 <= n < k {
        let cleared = HwCore {
            hw_breakpoints: 0,
            clear_count: (pre.hw(n).clear_count + 1) as u64,
            ..pre.hw(n)
        };
        if method is UnderReset && n == 0 {
            HwCore { debug_enabled: true, reset_catch: false, halted: true, ..cleared }
        } else {
            cleared
        }
    } else {
        pre.hw(n)
    }
}

/// How a successful session construction transforms the transport.
pub open spec fn spec_probe_after_attach(
    pre: Probe,
    k: int,
    method: AttachMethod,
    post: Probe,
) -> bool {
    &&& same_adapter(pre, post)
    &&& post.reset_asserted == (if method is UnderReset {
        false
    } else {
        pre.reset_asserted
    })
    &&& post.halt_delay == (if method is UnderReset && !pre.hw(0).halted {
        Option::<u32>::None
    } else {
        pre.halt_delay
    })
    &&& forall|n: int| (#[trigger] post.hw(n)) == spec_hw_after_attach(pre, k, method, n)
}

/// Whether [`Session::new`] succeeds, over the values it was given.
pub open spec fn spec_new_ok(
    pre: Probe,
    registry: Registry,
    selector: TargetSelector,
    method: AttachMethod,
) -> bool {
    spec_resolve(selector, registry, pre) matches Ok(t) && spec_attach_ok(pre, t, method)
}

/// The error [`Session::new`] reports when it fails.
pub open spec fn spec_new_err(
    pre: Probe,
    registry: Registry,
    selector: TargetSelector,
    method: AttachMethod,
) -> Error {
    match spec_resolve(selector, registry, pre) {
        Ok(t) => spec_attach_err(pre, t, method),
        Err(e) => e,
    }
}

/// What a session constructed by [`Session::new`] looks like: well-formed,
/// carrying the resolved target, one core entry per declared core, the
/// breakpoints of every core cleared, and (under reset-under-debug) core 0
/// caught halted with its cached halt flag set.
pub open spec fn spec_new_session(
    pre: Probe,
    registry: Registry,
    selector: TargetSelector,
    method: AttachMethod,
    s: Session,
) -> bool {
    spec_resolve(selector, registry, pre) matches Ok(t) && {
        &&& s.wf()
        &&& s.spec_target()@ == t@
        &&& s.spec_architecture() == t.spec_architecture()
        &&& s.spec_cores().len() == t.core_count
        &&& forall|i: int|
            0 <= i < s.spec_cores().len() ==> (#[trigger] s.spec_cores()[i]).1.halted == (
            method is UnderReset && i == 0)
        &&& spec_probe_after_attach(pre, t.core_count as int, method, s.spec_probe())
    }
}

/// A hardware debug session: the exclusive owner of one transport handle,
/// the resolved target descriptor, the architecture interface state and one
/// persistent entry per declared core.
#[derive(Debug)]
pub struct Session {
    target: Target,
    probe: Probe,
    interface_state: ArchitectureInterfaceState,
    cores: Vec<(SpecificCoreState, CoreState)>,
}

impl Session {
    /// The resolved target descriptor the session was built over.
    pub closed spec fn spec_target(&self) -> Target {
        self.target
    }

    /// The transport handle the session owns.
    pub closed spec fn spec_probe(&self) -> Probe {
        self.probe
    }

    /// The architecture interface state the session owns.
    pub closed spec fn spec_interface_state(&self) -> ArchitectureInterfaceState {
        self.interface_state
    }

    /// The per-core table: one entry per declared core, never resized.
    pub closed spec fn spec_cores(&self) -> Seq<(SpecificCoreState, CoreState)> {
        self.cores@
    }

    /// The architecture the session speaks, derived from the interface
    /// state variant.
    pub open spec fn spec_architecture(&self) -> Architecture {
        self.spec_interface_state().spec_architecture()
    }

    /// Session well-formedness: the target is well-formed, the interface
    /// variant matches the target's architecture, and the core table holds
    /// exactly one entry of the declared type per declared core.
    pub open spec fn wf(&self) -> bool {
        &&& self.spec_target().wf()
        &&& self.spec_architecture() == self.spec_target().spec_architecture()
        &&& self.spec_cores().len() == self.spec_target().core_count
        &&& forall|i: int|
            0 <= i < self.spec_cores().len() ==> (#[trigger] self.spec_cores()[i]).0.spec_core_type()
                == self.spec_target().core_type
    }

    /// Opens a new session with a given debug target.
    ///
    /// Resolves the selector, builds the matching architecture interface
    /// state, allocates one entry per declared core, optionally runs the
    /// reset-under-debug sequence, and clears all hardware breakpoints.
    /// Any failure at any step aborts construction and is returned; no
    /// partial session is ever handed out.
    pub fn new(
        probe: Probe,
        registry: &Registry,
        target: TargetSelector,
        attach_method: AttachMethod,
    ) -> (r: Result<Session, Error>)
        requires
            registry.wf(),
            target.wf(),
            forall|n: int| (#[trigger] probe.hw(n)).clear_count < u64::MAX,
        ensures
            match r {
                Ok(s) => spec_new_ok(probe, *registry, target, attach_method)
                    && spec_new_session(probe, *registry, target, attach_method, s),
                Err(e) => !spec_new_ok(probe, *registry, target, attach_method) && e
                    == spec_new_err(probe, *registry, target, attach_method),
            },
    {
        let ghost pre = probe;
        let ghost reg = *registry;
        let ghost sel = target;

        let resolved = match get_target_from_selector(target, registry, &probe) {
            Ok(t) => t,
            Err(e) => {
                return Err(e);
            },
        };
        proof {
            lemma_resolve_wf(sel, reg, pre);
        }

        let arch = resolved.architecture();
        let interface_state = match arch {
            Architecture::Arm => ArchitectureInterfaceState::Arm(
                ArmCommunicationInterfaceState::new(),
            ),
            Architecture::Riscv => ArchitectureInterfaceState::Riscv(
                RiscvCommunicationInterfaceState::new(),
            ),
        };

        let core_count = resolved.core_count;
        let core_type = resolved.core_type;
        let mut cores: Vec<(SpecificCoreState, CoreState)> = Vec::new();
        let mut i: usize = 0;
        while i < core_count
            invariant
                i <= core_count,
                cores@.len() == i,
                forall|j: int|
                    0 <= j < i ==> (#[trigger] cores@[j]).0.spec_core_type() == core_type,
                forall|j: int| 0 <= j < i ==> !(#[trigger] cores@[j]).1.halted,
            decreases core_count - i,
        {
            cores.push((SpecificCoreState::from_core_type(core_type), CoreState::new()));
            i = i + 1;
        }

        let mut session = Session { target: resolved, probe, interface_state, cores };

        if attach_method == AttachMethod::UnderReset {
            match session.run_reset_under_debug_sequence() {
                Ok(()) => {},
                Err(e) => {
                    return Err(e);
                },
            }
        }

        let ghost mid = session;
        match session.clear_all_hw_breakpoints() {
            Ok(()) => {},
            Err(e) => {
                return Err(e);
            },
        }

        proof {
            // a successful clear on every core means no core's clear was
            // scripted to fail, on the probe as it was handed in: the reset
            // sequence touches no core's clear behaviour
            let k = mid.spec_cores().len() as int;
            assert(k >= 1);
            assert(mid.spec_probe().clear_ok(k));
            assert forall|n: int| 0 <= n < k implies !(#[trigger] pre.hw(n)).clear_fails_now() by {
                assert(!mid.spec_probe().hw(n).clear_fails_now());
            }
            assert(pre.clear_ok(k));
        }

        Ok(session)
    }

    /// Opens a session on the first adapter of an enumeration, attaching
    /// normally. The enumeration must not be empty.
    pub fn auto_attach(
        probes: Vec<DebugProbeInfo>,
        registry: &Registry,
        target: TargetSelector,
    ) -> (r: Result<Session, Error>)
        requires
            probes@.len() >= 1,
            registry.wf(),
            target.wf(),
            forall|n: int| (#[trigger] probes@[0].probe.hw(n)).clear_count < u64::MAX,
        ensures
            probes@[0].open_fails ==> r == Err::<Session, Error>(Error::Transport),
            !probes@[0].open_fails ==> match r {
                Ok(s) => spec_new_ok(probes@[0].probe, *registry, target, AttachMethod::Normal)
                    && spec_new_session(
                    probes@[0].probe,
                    *registry,
                    target,
                    AttachMethod::Normal,
                    s,
                ),
                Err(e) => !spec_new_ok(probes@[0].probe, *registry, target, AttachMethod::Normal)
                    && e == spec_new_err(
                    probes@[0].probe,
                    *registry,
                    target,
                    AttachMethod::Normal,
                ),
            },
    {
        let mut probes = probes;
        let first = probes.remove(0);
        let probe = match first.open() {
            Ok(p) => p,
            Err(e) => {
                return Err(e);
            },
        };
        Session::new(probe, registry, target, AttachMethod::Normal)
    }

    /// Lists the available cores with their number and their type, in core
    /// order.
    pub fn list_cores(&self) -> (r: Vec<(usize, CoreType)>)
        ensures
            r@.len() == self.spec_cores().len(),
            forall|i: int|
                0 <= i < r@.len() ==> (#[trigger] r@[i]) == (
                i as usize,
                self.spec_cores()[i].0.spec_core_type(),
            ),
    {
        let mut r: Vec<(usize, CoreType)> = Vec::new();
        let mut i: usize = 0;
        while i < self.cores.len()
            invariant
                i <= self.cores@.len(),
                r@.len() == i,
                forall|j: int|
                    0 <= j < i ==> (#[trigger] r@[j]) == (
                    j as usize,
                    self.cores@[j].0.spec_core_type(),
                ),
            decreases self.cores@.len() - i,
        {
            r.push((i, self.cores[i].0.core_type()));
            i = i + 1;
        }
        r
    }

    /// Attaches to the core with the given number, minting a transient,
    /// exclusive core handle.
    ///
    /// An index at or beyond the declared core count fails with
    /// [`Error::CoreNotFound`]; otherwise the attach succeeds exactly when
    /// the matching architecture interface is present on the transport.
    pub fn get_core(&mut self, n: usize) -> (r: Result<Core, Error>)
        ensures
            final(self).spec_target() == old(self).spec_target(),
            final(self).spec_probe() == old(self).spec_probe(),
            final(self).spec_cores() == old(self).spec_cores(),
            final(self).spec_architecture() == old(self).spec_architecture(),
            final(self).wf() == old(self).wf(),
            n >= old(self).spec_cores().len() ==> r == Err::<Core, Error>(Error::CoreNotFound(n))
                && *final(self) == *old(self),
            n < old(self).spec_cores().len() && !old(self).spec_probe().has_interface(
                old(self).spec_architecture(),
            ) ==> r == Err::<Core, Error>(
                Error::InterfaceUnavailable(old(self).spec_architecture()),
            ) && *final(self) == *old(self),
            n < old(self).spec_cores().len() && old(self).spec_probe().has_interface(
                old(self).spec_architecture(),
            ) ==> r == Ok::<Core, Error>(
                Core {
                    index: n,
                    core_type: old(self).spec_cores()[n as int].0.spec_core_type(),
                    architecture: old(self).spec_architecture(),
                    halted: old(self).spec_cores()[n as int].1.halted,
                },
            ),
    {
        if n >= self.cores.len() {
            return Err(Error::CoreNotFound(n));
        }
        self.interface_state.attach(&self.probe, n, &self.cores[n].0, &self.cores[n].1)
    }

    /// The flash-loader algorithms of the target.
    pub fn flash_algorithms(&self) -> (r: &[RawFlashAlgorithm])
        ensures
            r@ == self.spec_target().flash_algorithms@,
    {
        self.target.flash_algorithms.as_slice()
    }

    /// The memory map of the target, in declaration order.
    pub fn memory_map(&self) -> (r: &[MemoryRegion])
        ensures
            r@ == self.spec_target().memory_map@,
    {
        self.target.memory_map.as_slice()
    }

    /// The architecture of the currently connected chip.
    pub fn architecture(&self) -> (r: Architecture)
        ensures
            r == self.spec_architecture(),
    {
        match &self.interface_state {
            ArchitectureInterfaceState::Arm(_) => Architecture::Arm,
            ArchitectureInterfaceState::Riscv(_) => Architecture::Riscv,
        }
    }

    /// Clears all hardware breakpoints on all cores: every core is
    /// attached and cleared in index order, exactly once each.
    ///
    /// The whole call fails on the first core whose attach or clear fails,
    /// but clears already performed on earlier cores keep their effect: no
    /// rollback is attempted.
    #[verifier::loop_isolation(false)]
    pub fn clear_all_hw_breakpoints(&mut self) -> (r: Result<(), Error>)
        requires
            forall|n: int|
                (#[trigger] old(self).spec_probe().hw(n)).clear_count < u64::MAX,
        ensures
            final(self).spec_target() == old(self).spec_target(),
            final(self).spec_cores() == old(self).spec_cores(),
            final(self).spec_architecture() == old(self).spec_architecture(),
            final(self).wf() == old(self).wf(),
            same_adapter(old(self).spec_probe(), final(self).spec_probe()),
            final(self).spec_probe().reset_asserted == old(self).spec_probe().reset_asserted,
            final(self).spec_probe().halt_delay == old(self).spec_probe().halt_delay,
            r is Ok <==> spec_clear_all_ok(
                old(self).spec_probe(),
                old(self).spec_architecture(),
                old(self).spec_cores().len() as int,
            ),
            r is Ok ==> forall|n: int|
                (#[trigger] final(self).spec_probe().hw(n)) == (
                if 0 <= n < old(self).spec_cores().len() {
                    HwCore {
                        hw_breakpoints: 0,
                        clear_count: (old(self).spec_probe().hw(n).clear_count + 1) as u64,
                        ..old(self).spec_probe().hw(n)
                    }
                } else {
                    old(self).spec_probe().hw(n)
                }),
            r is Err && !old(self).spec_probe().has_interface(old(self).spec_architecture())
                ==> r == Err::<(), Error>(
                Error::InterfaceUnavailable(old(self).spec_architecture()),
            ) && forall|n: int|
                (#[trigger] final(self).spec_probe().hw(n)) == old(self).spec_probe().hw(n),
            r is Err && old(self).spec_probe().has_interface(old(self).spec_architecture()) ==> r
                == Err::<(), Error>(Error::Transport) && exists|i: int|
                {
                    &&& 0 <= i < old(self).spec_cores().len()
                    &&& (#[trigger] old(self).spec_probe().hw(i)).clear_fails_now()
                    &&& forall|j: int|
                        0 <= j < i ==> !(#[trigger] old(self).spec_probe().hw(j)).clear_fails_now()
                    &&& forall|n: int|
                        (#[trigger] final(self).spec_probe().hw(n)) == (
                        if 0 <= n < i {
                            HwCore {
                                hw_breakpoints: 0,
                                clear_count: (old(self).spec_probe().hw(n).clear_count + 1) as u64,
                                ..old(self).spec_probe().hw(n)
                            }
                        } else if n == i {
                            HwCore {
                                clear_count: (old(self).spec_probe().hw(n).clear_count + 1) as u64,
                                ..old(self).spec_probe().hw(n)
                            }
                        } else {
                            old(self).spec_probe().hw(n)
                        })
                },
    {
        let ghost pre = *self;
        let k = self.cores.len();
        let mut n: usize = 0;
        while n < k
            invariant
                n <= k,
                k == pre.spec_cores().len(),
                self.spec_target() == pre.spec_target(),
                self.spec_cores() == pre.spec_cores(),
                self.spec_architecture() == pre.spec_architecture(),
                self.wf() == pre.wf(),
                same_adapter(pre.spec_probe(), self.spec_probe()),
                self.spec_probe().reset_asserted == pre.spec_probe().reset_asserted,
                self.spec_probe().halt_delay == pre.spec_probe().halt_delay,
                n > 0 ==> pre.spec_probe().has_interface(pre.spec_architecture()),
                forall|j: int|
                    0 <= j < n ==> !(#[trigger] pre.spec_probe().hw(j)).clear_fails_now(),
                forall|m: int|
                    (#[trigger] self.spec_probe().hw(m)) == (
                    if 0 <= m < n {
                        HwCore {
                            hw_breakpoints: 0,
                            clear_count: (pre.spec_probe().hw(m).clear_count + 1) as u64,
                            ..pre.spec_probe().hw(m)
                        }
                    } else {
                        pre.spec_probe().hw(m)
                    }),
            decreases k - n,
        {
            match self.get_core(n) {
                Ok(_) => {},
                Err(e) => {
                    return Err(e);
                },
            }
            match self.probe.clear_hw_breakpoints(n) {
                Ok(()) => {},
                Err(e) => {
                    return Err(e);
                },
            }
            n = n + 1;
        }
        Ok(())
    }

    /// Runs the reset-under-debug sequence on core 0: enable debug mode,
    /// arm the reset-catch condition, deassert the physical reset line,
    /// poll for the halt within the wait budget, then clear the catch
    /// condition again. A failed transition aborts the sequence with its
    /// error; already-armed hardware state is not rolled back.
    fn run_reset_under_debug_sequence(&mut self) -> (r: Result<(), Error>)
        requires
            old(self).wf(),
        ensures
            final(self).spec_target() == old(self).spec_target(),
            final(self).spec_architecture() == old(self).spec_architecture(),
            final(self).wf() == old(self).wf(),
            r is Ok <==> ({
                let p = old(self).spec_probe();
                p.has_interface(old(self).spec_architecture()) && p.reset_deassert_ok
                    && p.halts_within(0, RESET_HALT_POLL_BUDGET as int)
            }),
            r matches Err(e) ==> e == ({
                let p = old(self).spec_probe();
                if !p.has_interface(old(self).spec_architecture()) {
                    Error::InterfaceUnavailable(old(self).spec_architecture())
                } else if !p.reset_deassert_ok {
                    Error::Transport
                } else {
                    Error::Timeout
                }
            }),
            r is Ok ==> ({
                let p = old(self).spec_probe();
                let post = final(self).spec_probe();
                &&& same_adapter(p, post)
                &&& !post.reset_asserted
                &&& post.halt_delay == (if p.hw(0).halted {
                    p.halt_delay
                } else {
                    Option::<u32>::None
                })
                &&& forall|m: int| m != 0 ==> (#[trigger] post.hw(m)) == p.hw(m)
                &&& post.hw(0) == (HwCore {
                    debug_enabled: true,
                    reset_catch: false,
                    halted: true,
                    ..p.hw(0)
                })
                &&& final(self).spec_cores() == old(self).spec_cores().update(
                    0,
                    (old(self).spec_cores()[0].0, CoreState { halted: true }),
                )
            }),
    {
        match self.get_core(0) {
            Ok(_) => {},
            Err(e) => {
                return Err(e);
            },
        }

        // enable debug mode on core 0
        self.probe.enable_debug(0);

        // arm the reset-catch condition so the core halts out of reset
        self.probe.set_reset_catch(0);

        // deassert the physical reset line
        match self.probe.target_reset_deassert() {
            Ok(()) => {},
            Err(e) => {
                return Err(e);
            },
        }

        // wait for the core to be halted, within the bounded budget
        match self.probe.wait_for_core_halted(0, RESET_HALT_POLL_BUDGET) {
            Ok(()) => {},
            Err(e) => {
                return Err(e);
            },
        }

        // the halt has been observed: remember it in the core's state
        let slot = &mut self.cores[0];
        slot.1 = CoreState { halted: true };

        // clear the reset-catch condition again
        self.probe.clear_reset_catch(0);

        Ok(())
    }

    /// Ends the session: a best-effort breakpoint clear that never raises
    /// an error to the destroying context. When the internal clear fails,
    /// the failure is reported only as a diagnostic message.
    pub fn close(self) -> (r: Option<String>)
        requires
            forall|n: int| (#[trigger] self.spec_probe().hw(n)).clear_count < u64::MAX,
        ensures
            r is Some <==> !spec_clear_all_ok(
                self.spec_probe(),
                self.spec_architecture(),
                self.spec_cores().len() as int,
            ),
            r matches Some(m) ==> m@ == "could not clear all hardware breakpoints"@,
    {
        let mut session = self;
        match session.clear_all_hw_breakpoints() {
            Ok(()) => None,
            Err(_) => Some("could not clear all hardware breakpoints".to_owned()),
        }
    }
}

/// Law: a well-formed session's architecture is exactly the architecture
/// its target descriptor encodes; the interface variant is fixed at
/// resolution and never re-tagged.
pub proof fn lemma_architecture_matches_target(s: Session)
    requires
        s.wf(),
    ensures
        s.spec_architecture() == s.spec_target().spec_architecture(),
{
}

/// Law: whatever the selector form, a session constructed over it reports
/// the architecture encoded in the target the selector resolved to.
pub proof fn lemma_session_architecture(
    pre: Probe,
    registry: Registry,
    selector: TargetSelector,
    method: AttachMethod,
    s: Session,
)
    requires
        spec_new_session(pre, registry, selector, method, s),
    ensures
        spec_resolve(selector, registry, pre) matches Ok(t) && s.spec_architecture()
            == t.spec_architecture(),
{
}

/// Law: with the interface present, the reset line cooperating and every
/// breakpoint clear succeeding, constructing a session under reset succeeds
/// exactly when the transport's halt status becomes true within the wait
/// budget; when it never does, the construction error is the timeout.
pub proof fn lemma_reset_halt_decides_construction(p: Probe, t: Target)
    requires
        p.has_interface(t.spec_architecture()),
        p.reset_deassert_ok,
        p.clear_ok(t.core_count as int),
    ensures
        spec_attach_ok(p, t, AttachMethod::UnderReset) <==> p.halts_within(
            0,
            RESET_HALT_POLL_BUDGET as int,
        ),
        !p.halts_within(0, RESET_HALT_POLL_BUDGET as int) ==> spec_attach_err(
            p,
            t,
            AttachMethod::UnderReset,
        ) == Error::Timeout,
{
}

/// Law: on an ARM-only transport whose identification scan reports an
/// identity, the automatic selector resolves to exactly what the registry's
/// chip-identity lookup returns for that identity.
pub proof fn lemma_auto_arm_resolution(registry: Registry, p: Probe, chip: crate::config::ArmChipInfo)
    requires
        p.has_dap,
        p.arm_scan == ArmScanOutcome::Identified(chip),
    ensures
        spec_resolve(TargetSelector::Auto, registry, p) == (match spec_find_by_chip_info(
            registry.entries@,
            ChipInfo::Arm(chip),
        ) {
            Some(t) => Ok::<Target, Error>(t),
            None => Err::<Target, Error>(Error::ChipNotFound(RegistryError::NameNotFound)),
        }),
{
}

/// Law: on a transport with no ARM interface but with JTAG present, the
/// ARM autodetection step is skipped without error, and — the RISC-V
/// identity mapping being unimplemented — automatic resolution fails with
/// the autodetection failure.
pub proof fn lemma_auto_without_arm_fails(registry: Registry, p: Probe)
    requires
        !p.has_dap,
        p.has_jtag,
    ensures
        spec_resolve(TargetSelector::Auto, registry, p) == Err::<Target, Error>(
            Error::ChipNotFound(RegistryError::AutodetectFailed),
        ),
{
}

} // verus!
