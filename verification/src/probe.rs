//! The transport handle: a debug adapter together with the chip behind it.
//!
//! The physical adapter (USB probe firmware, raw SWD/JTAG bit-banging) is a
//! collaborator outside this crate. A [`Probe`] holds, as plain values,
//! everything the session logic reads from or drives on that collaborator:
//! which communication interfaces the adapter exposes, what a scan of the
//! chip's identification table yields, how the reset line reacts, when the
//! halt status becomes true, and the per-core hardware debug state. Every
//! operation below is specified exactly over those values, so the session
//! logic is verified for every behaviour the model can describe.

use vstd::prelude::*;

use crate::arch::Architecture;
use crate::config::ArmChipInfo;
use crate::error::Error;

verus! {

/// The outcome the transport reports for a scan of the chip's discoverable
/// ARM identification (ROM) table.
#[derive(Clone, Copy, Debug, PartialEq, Eq, Structural)]
pub enum ArmScanOutcome {
    /// The scan found an identification entry.
    Identified(ArmChipInfo),
    /// The scan completed and found nothing.
    NotIdentified,
    /// A protocol error interrupted the scan.
    Fault,
}

/// The hardware debug state of one core of the attached chip.
#[derive(Clone, Copy, Debug, PartialEq, Eq, Structural)]
pub struct HwCore {
    /// How many hardware breakpoints are active on the core.
    pub hw_breakpoints: u32,
    /// How many times a breakpoint clear has been invoked on the core.
    pub clear_count: u64,
    /// Scripted behaviour: from this invocation count on, a breakpoint
    /// clear on the core fails; `None` means it never fails.
    pub clear_fail_from: Option<u64>,
    /// Whether debug mode has been enabled on the core.
    pub debug_enabled: bool,
    /// Whether a reset-catch condition is armed on the core.
    pub reset_catch: bool,
    /// Whether the core is halted.
    pub halted: bool,
}

/// The hardware state of a core that no operation has touched and no script
/// entry describes: quiescent and well behaved.
pub open spec fn hw_quiescent() -> HwCore {
    HwCore {
        hw_breakpoints: 0,
        clear_count: 0,
        clear_fail_from: None,
        debug_enabled: false,
        reset_catch: false,
        halted: false,
    }
}

impl HwCore {
    /// Whether the next breakpoint-clear invocation on a core in this state
    /// fails, by the core's script.
    pub open spec fn clear_fails_now(&self) -> bool {
        match self.clear_fail_from {
            Some(f) => self.clear_count >= f,
            None => false,
        }
    }

    /// A core in the quiescent state.
    pub fn quiescent() -> (r: HwCore)
        ensures
            r == hw_quiescent(),
    {
        HwCore {
            hw_breakpoints: 0,
            clear_count: 0,
            clear_fail_from: None,
            debug_enabled: false,
            reset_catch: false,
            halted: false,
        }
    }
}

/// A transport handle: the exclusive owner of one debug adapter, together
/// with the observable state of the chip it is wired to.
///
/// The fields are plain values. Some describe the adapter itself
/// (`has_dap`, `has_jtag`), some the chip (`cores`, `reset_asserted`), and
/// some script how the outside world will answer an operation
/// (`arm_scan`, `idcode`, `reset_deassert_ok`, `halt_delay`).
#[derive(Debug)]
pub struct Probe {
    /// The adapter exposes an ARM debug-access-port (DAP) interface.
    pub has_dap: bool,
    /// The adapter exposes a JTAG interface, over which the RISC-V debug
    /// module is reached.
    pub has_jtag: bool,
    /// What a scan of the chip's ARM identification table yields.
    pub arm_scan: ArmScanOutcome,
    /// The identification code a JTAG read returns.
    pub idcode: u32,
    /// Scripted behaviour: deasserting the reset line succeeds.
    pub reset_deassert_ok: bool,
    /// Whether the physical reset line is asserted.
    pub reset_asserted: bool,
    /// After how many further halt-status queries the queried core halts:
    /// `Some(0)` halts at the next query, `None` never.
    pub halt_delay: Option<u32>,
    /// Per-core hardware state; a core beyond the end of the table is in
    /// the quiescent state.
    pub cores: Vec<HwCore>,
}

impl Probe {
    /// The hardware state of core `n`.
    pub open spec fn hw(&self, n: int) -> HwCore {
        if 0 <= n < self.cores@.len() {
            self.cores@[n]
        } else {
            hw_quiescent()
        }
    }

    /// Whether the communication interface of the given architecture can be
    /// built on this transport.
    pub open spec fn has_interface(&self, arch: Architecture) -> bool {
        match arch {
            Architecture::Arm => self.has_dap,
            Architecture::Riscv => self.has_jtag,
        }
    }

    /// Whether a halt-status poll of core `n` observes a halt within
    /// `budget` queries.
    pub open spec fn halts_within(&self, n: int, budget: int) -> bool {
        self.hw(n).halted || (match self.halt_delay {
            Some(d) => d < budget,
            None => false,
        })
    }

    /// Whether a breakpoint clear succeeds on every core below `k`.
    pub open spec fn clear_ok(&self, k: int) -> bool {
        forall|n: int| 0 <= n < k ==> !(#[trigger] self.hw(n)).clear_fails_now()
    }
}

/// The adapter-side and script fields of the two probes agree; only chip
/// state (cores, the reset line, the halt countdown) may differ.
pub open spec fn same_adapter(a: Probe, b: Probe) -> bool {
    &&& b.has_dap == a.has_dap
    &&& b.has_jtag == a.has_jtag
    &&& b.arm_scan == a.arm_scan
    &&& b.idcode == a.idcode
    &&& b.reset_deassert_ok == a.reset_deassert_ok
}

impl Probe {
    /// Grows the core table until it holds a slot for core `n`, changing no
    /// core's observable state.
    fn ensure_slot(&mut self, n: usize)
        ensures
            final(self).cores@.len() > n,
            forall|m: int| final(self).hw(m) == old(self).hw(m),
            same_adapter(*old(self), *final(self)),
            final(self).reset_asserted == old(self).reset_asserted,
            final(self).halt_delay == old(self).halt_delay,
    {
        let ghost pre = *self;
        while self.cores.len() <= n
            invariant
                forall|m: int| self.hw(m) == pre.hw(m),
                same_adapter(pre, *self),
                self.reset_asserted == pre.reset_asserted,
                self.halt_delay == pre.halt_delay,
            decreases n + 1 - self.cores.len(),
        {
            let ghost step = *self;
            self.cores.push(HwCore::quiescent());
            proof {
                assert(forall|m: int| self.hw(m) == step.hw(m));
            }
        }
    }

    /// Whether a JTAG interface is present on the adapter.
    pub fn has_jtag_interface(&self) -> (r: bool)
        ensures
            r == self.has_jtag,
    {
        self.has_jtag
    }

    /// Whether a DAP interface is present on the adapter.
    pub fn has_dap_interface(&self) -> (r: bool)
        ensures
            r == self.has_dap,
    {
        self.has_dap
    }

    /// Deasserts the physical reset line of the target.
    pub fn target_reset_deassert(&mut self) -> (r: Result<(), Error>)
        ensures
            same_adapter(*old(self), *final(self)),
            forall|m: int| final(self).hw(m) == old(self).hw(m),
            final(self).halt_delay == old(self).halt_delay,
            old(self).reset_deassert_ok ==> r is Ok && !final(self).reset_asserted,
            !old(self).reset_deassert_ok ==> r == Err::<(), Error>(Error::Transport)
                && *final(self) == *old(self),
    {
        if self.reset_deassert_ok {
            self.reset_asserted = false;
            Ok(())
        } else {
            Err(Error::Transport)
        }
    }

    /// Reads the identification code the chip reports over JTAG.
    ///
    /// Meaningful only once the JTAG interface has been built, which asks
    /// for its presence on the adapter.
    pub fn read_idcode(&self) -> (r: u32)
        requires
            self.has_jtag,
        ensures
            r == self.idcode,
    {
        self.idcode
    }

    /// Scans the chip's discoverable ARM identification table through the
    /// DAP interface, which must be present on the adapter.
    ///
    /// A completed scan reports the identity it found, or that there is
    /// none; a protocol error during the scan is a transport error, which
    /// the autodetection protocol downgrades to "not identified".
    pub fn scan_arm_rom_table(&self) -> (r: Result<Option<ArmChipInfo>, Error>)
        requires
            self.has_dap,
        ensures
            r == match self.arm_scan {
                ArmScanOutcome::Identified(c) => Result::<Option<ArmChipInfo>, Error>::Ok(
                    Some(c),
                ),
                ArmScanOutcome::NotIdentified => Result::<Option<ArmChipInfo>, Error>::Ok(None),
                ArmScanOutcome::Fault => Result::<Option<ArmChipInfo>, Error>::Err(
                    Error::Transport,
                ),
            },
    {
        match self.arm_scan {
            ArmScanOutcome::Identified(c) => Ok(Some(c)),
            ArmScanOutcome::NotIdentified => Ok(None),
            ArmScanOutcome::Fault => Err(Error::Transport),
        }
    }

    /// Enables debug mode on core `n`.
    pub fn enable_debug(&mut self, n: usize)
        ensures
            same_adapter(*old(self), *final(self)),
            final(self).reset_asserted == old(self).reset_asserted,
            final(self).halt_delay == old(self).halt_delay,
            forall|m: int| m != n ==> final(self).hw(m) == old(self).hw(m),
            final(self).hw(n as int) == (HwCore {
                debug_enabled: true,
                ..old(self).hw(n as int)
            }),
    {
        self.ensure_slot(n);
        let slot = &mut self.cores[n];
        slot.debug_enabled = true;
    }

    /// Arms the reset-catch condition on core `n`, so that the core halts
    /// immediately out of reset.
    pub fn set_reset_catch(&mut self, n: usize)
        ensures
            same_adapter(*old(self), *final(self)),
            final(self).reset_asserted == old(self).reset_asserted,
            final(self).halt_delay == old(self).halt_delay,
            forall|m: int| m != n ==> final(self).hw(m) == old(self).hw(m),
            final(self).hw(n as int) == (HwCore { reset_catch: true, ..old(self).hw(n as int) }),
    {
        self.ensure_slot(n);
        let slot = &mut self.cores[n];
        slot.reset_catch = true;
    }

    /// Clears the reset-catch condition on core `n`.
    pub fn clear_reset_catch(&mut self, n: usize)
        ensures
            same_adapter(*old(self), *final(self)),
            final(self).reset_asserted == old(self).reset_asserted,
            final(self).halt_delay == old(self).halt_delay,
            forall|m: int| m != n ==> final(self).hw(m) == old(self).hw(m),
            final(self).hw(n as int) == (HwCore { reset_catch: false, ..old(self).hw(n as int) }),
    {
        self.ensure_slot(n);
        let slot = &mut self.cores[n];
        slot.reset_catch = false;
    }

    /// Records that core `n` has halted.
    fn mark_halted(&mut self, n: usize)
        ensures
            same_adapter(*old(self), *final(self)),
            final(self).reset_asserted == old(self).reset_asserted,
            final(self).halt_delay == old(self).halt_delay,
            forall|m: int| m != n ==> final(self).hw(m) == old(self).hw(m),
            final(self).hw(n as int) == (HwCore { halted: true, ..old(self).hw(n as int) }),
    {
        self.ensure_slot(n);
        let slot = &mut self.cores[n];
        slot.halted = true;
    }

    /// Queries the halt status of core `n` once. When the scripted halt
    /// moment arrives the core halts; until then the countdown advances.
    pub fn query_halted(&mut self, n: usize) -> (halted: bool)
        ensures
            same_adapter(*old(self), *final(self)),
            final(self).reset_asserted == old(self).reset_asserted,
            forall|m: int| m != n ==> final(self).hw(m) == old(self).hw(m),
            old(self).hw(n as int).halted ==> halted && *final(self) == *old(self),
            !old(self).hw(n as int).halted ==> match old(self).halt_delay {
                Some(d) => {
                    if d == 0 {
                        halted && final(self).halt_delay is None && final(self).hw(n as int)
                            == (HwCore { halted: true, ..old(self).hw(n as int) })
                    } else {
                        &&& !halted
                        &&& final(self).halt_delay == Some((d - 1) as u32)
                        &&& final(self).hw(n as int) == old(self).hw(n as int)
                    }
                },
                None => !halted && *final(self) == *old(self),
            },
    {
        if n < self.cores.len() && self.cores[n].halted {
            return true;
        }
        match self.halt_delay {
            Some(d) => {
                if d == 0 {
                    self.halt_delay = None;
                    self.mark_halted(n);
                    true
                } else {
                    self.halt_delay = Some(d - 1);
                    false
                }
            },
            None => false,
        }
    }

    /// Polls the halt status of core `n`, up to `budget` queries, until the
    /// core is observed halted; expiry of the budget is a timeout.
    #[verifier::loop_isolation(false)]
    pub fn wait_for_core_halted(&mut self, n: usize, budget: u32) -> (r: Result<(), Error>)
        requires
            budget >= 1,
        ensures
            same_adapter(*old(self), *final(self)),
            final(self).reset_asserted == old(self).reset_asserted,
            forall|m: int| m != n ==> final(self).hw(m) == old(self).hw(m),
            r is Ok <==> old(self).halts_within(n as int, budget as int),
            r is Err ==> ({
                &&& r == Err::<(), Error>(Error::Timeout)
                &&& final(self).hw(n as int) == old(self).hw(n as int)
                &&& !final(self).hw(n as int).halted
                &&& final(self).halt_delay == (match old(self).halt_delay {
                    Some(d) => Some((d - budget) as u32),
                    None => Option::<u32>::None,
                })
            }),
            r is Ok ==> final(self).hw(n as int).halted,
            r is Ok && old(self).hw(n as int).halted ==> *final(self) == *old(self),
            r is Ok && !old(self).hw(n as int).halted ==> final(self).halt_delay is None
                && final(self).hw(n as int) == (HwCore { halted: true, ..old(self).hw(n as int) }),
    {
        let ghost pre = *self;
        let mut i: u32 = 0;
        while i < budget
            invariant
                i <= budget,
                same_adapter(pre, *self),
                self.reset_asserted == pre.reset_asserted,
                forall|m: int| m != n ==> self.hw(m) == pre.hw(m),
                self.hw(n as int) == pre.hw(n as int),
                i == 0 ==> *self == pre,
                i > 0 ==> !pre.hw(n as int).halted,
                i > 0 ==> match pre.halt_delay {
                    Some(d) => i <= d && self.halt_delay == Some((d - i) as u32),
                    None => self.halt_delay is None,
                },
            decreases budget - i,
        {
            if self.query_halted(n) {
                return Ok(());
            }
            i = i + 1;
        }
        Err(Error::Timeout)
    }

    /// Clears all hardware breakpoints on core `n`. The invocation is
    /// counted whether or not it succeeds; on success the core has no
    /// active hardware breakpoints left.
    pub fn clear_hw_breakpoints(&mut self, n: usize) -> (r: Result<(), Error>)
        requires
            old(self).hw(n as int).clear_count < u64::MAX,
        ensures
            same_adapter(*old(self), *final(self)),
            final(self).reset_asserted == old(self).reset_asserted,
            final(self).halt_delay == old(self).halt_delay,
            forall|m: int| m != n ==> final(self).hw(m) == old(self).hw(m),
            !old(self).hw(n as int).clear_fails_now() ==> r is Ok && final(self).hw(n as int)
                == (HwCore {
                hw_breakpoints: 0,
                clear_count: (old(self).hw(n as int).clear_count + 1) as u64,
                ..old(self).hw(n as int)
            }),
            old(self).hw(n as int).clear_fails_now() ==> r == Err::<(), Error>(Error::Transport)
                && final(self).hw(n as int) == (HwCore {
                clear_count: (old(self).hw(n as int).clear_count + 1) as u64,
                ..old(self).hw(n as int)
            }),
    {
        self.ensure_slot(n);
        let slot = &mut self.cores[n];
        let fails = match slot.clear_fail_from {
            Some(f) => slot.clear_count >= f,
            None => false,
        };
        slot.clear_count = slot.clear_count + 1;
        if fails {
            Err(Error::Transport)
        } else {
            slot.hw_breakpoints = 0;
            Ok(())
        }
    }
}

/// An entry of the adapter enumeration: a connected probe that can be
/// opened, yielding exclusive ownership of its transport handle.
#[derive(Debug)]
pub struct DebugProbeInfo {
    /// The transport handle behind this entry.
    pub probe: Probe,
    /// Scripted behaviour: opening the adapter fails.
    pub open_fails: bool,
}

impl DebugProbeInfo {
    /// Opens the adapter, taking exclusive ownership of the transport.
    pub fn open(self) -> (r: Result<Probe, Error>)
        ensures
            self.open_fails ==> r == Err::<Probe, Error>(Error::Transport),
            !self.open_fails ==> (r matches Ok(p) && p == self.probe),
    {
        if self.open_fails {
            Err(Error::Transport)
        } else {
            Ok(self.probe)
        }
    }
}

} // verus!
