//! Virtual CPUs: their architectural register state, the run state that
//! keeps one driver per vCPU, and the translation of the kernel's raw exit
//! records into one architecture-agnostic exit enumeration.

use crate::hypervisor::Arch;
use vstd::prelude::*;

verus! {

/// The general-purpose, instruction-pointer and flags registers of an
/// x86-64 core.
#[derive(Clone, Copy, Debug, PartialEq, Eq)]
pub struct X86Registers {
    pub rax: u64,
    pub rbx: u64,
    pub rcx: u64,
    pub rdx: u64,
    pub rsi: u64,
    pub rdi: u64,
    pub rsp: u64,
    pub rbp: u64,
    pub r8: u64,
    pub r9: u64,
    pub r10: u64,
    pub r11: u64,
    pub r12: u64,
    pub r13: u64,
    pub r14: u64,
    pub r15: u64,
    pub rip: u64,
    pub rflags: u64,
}

/// The general-purpose registers, stack pointer, program counter and
/// processor state of an AArch64 core.
#[derive(Clone, Copy, Debug, PartialEq, Eq)]
pub struct Arm64Registers {
    pub x0: u64,
    pub x1: u64,
    pub x2: u64,
    pub x3: u64,
    pub x4: u64,
    pub x5: u64,
    pub x6: u64,
    pub x7: u64,
    pub x8: u64,
    pub x9: u64,
    pub x10: u64,
    pub x11: u64,
    pub x12: u64,
    pub x13: u64,
    pub x14: u64,
    pub x15: u64,
    pub x16: u64,
    pub x17: u64,
    pub x18: u64,
    pub x19: u64,
    pub x20: u64,
    pub x21: u64,
    pub x22: u64,
    pub x23: u64,
    pub x24: u64,
    pub x25: u64,
    pub x26: u64,
    pub x27: u64,
    pub x28: u64,
    pub x29: u64,
    pub x30: u64,
    pub sp: u64,
    pub pc: u64,
    pub pstate: u64,
}

/// A register set of one of the two architectures.
#[derive(Clone, Copy, Debug, PartialEq, Eq)]
pub enum CpuRegisters {
    X86_64(X86Registers),
    Aarch64(Arm64Registers),
}

impl CpuRegisters {
    pub open spec fn spec_arch(self) -> Arch {
        match self {
            CpuRegisters::X86_64(_) => Arch::X86_64,
            CpuRegisters::Aarch64(_) => Arch::Aarch64,
        }
    }

    pub fn arch(&self) -> (r: Arch)
        ensures
            r == self.spec_arch(),
    {
        match self {
            CpuRegisters::X86_64(_) => Arch::X86_64,
            CpuRegisters::Aarch64(_) => Arch::Aarch64,
        }
    }
}

/// The reserved flags bit that reads as one on x86-64.
pub const X86_RFLAGS_RESERVED: u64 = 2;

/// AArch64 processor state at reset: EL1 with its own stack pointer and all
/// of debug, SError, IRQ and FIQ masked.
pub const ARM64_RESET_PSTATE: u64 = 0x3c5;

/// The register set a vCPU of `arch` holds when it is created.
pub open spec fn spec_reset_registers(arch: Arch) -> CpuRegisters {
    match arch {
        Arch::X86_64 => CpuRegisters::X86_64(
            X86Registers {
                rax: 0,
                rbx: 0,
                rcx: 0,
                rdx: 0,
                rsi: 0,
                rdi: 0,
                rsp: 0,
                rbp: 0,
                r8: 0,
                r9: 0,
                r10: 0,
                r11: 0,
                r12: 0,
                r13: 0,
                r14: 0,
                r15: 0,
                rip: 0,
                rflags: X86_RFLAGS_RESERVED,
            },
        ),
        Arch::Aarch64 => CpuRegisters::Aarch64(
            Arm64Registers {
                x0: 0,
                x1: 0,
                x2: 0,
                x3: 0,
                x4: 0,
                x5: 0,
                x6: 0,
                x7: 0,
                x8: 0,
                x9: 0,
                x10: 0,
                x11: 0,
                x12: 0,
                x13: 0,
                x14: 0,
                x15: 0,
                x16: 0,
                x17: 0,
                x18: 0,
                x19: 0,
                x20: 0,
                x21: 0,
                x22: 0,
                x23: 0,
                x24: 0,
                x25: 0,
                x26: 0,
                x27: 0,
                x28: 0,
                x29: 0,
                x30: 0,
                sp: 0,
                pc: 0,
                pstate: ARM64_RESET_PSTATE,
            },
        ),
    }
}

pub fn reset_registers(arch: Arch) -> (r: CpuRegisters)
    ensures
        r == spec_reset_registers(arch),
        r.spec_arch() == arch,
{
    match arch {
        Arch::X86_64 => CpuRegisters::X86_64(
            X86Registers {
                rax: 0,
                rbx: 0,
                rcx: 0,
                rdx: 0,
                rsi: 0,
                rdi: 0,
                rsp: 0,
                rbp: 0,
                r8: 0,
                r9: 0,
                r10: 0,
                r11: 0,
                r12: 0,
                r13: 0,
                r14: 0,
                r15: 0,
                rip: 0,
                rflags: X86_RFLAGS_RESERVED,
            },
        ),
        Arch::Aarch64 => CpuRegisters::Aarch64(
            Arm64Registers {
                x0: 0,
                x1: 0,
                x2: 0,
                x3: 0,
                x4: 0,
                x5: 0,
                x6: 0,
                x7: 0,
                x8: 0,
                x9: 0,
                x10: 0,
                x11: 0,
                x12: 0,
                x13: 0,
                x14: 0,
                x15: 0,
                x16: 0,
                x17: 0,
                x18: 0,
                x19: 0,
                x20: 0,
                x21: 0,
                x22: 0,
                x23: 0,
                x24: 0,
                x25: 0,
                x26: 0,
                x27: 0,
                x28: 0,
                x29: 0,
                x30: 0,
                sp: 0,
                pc: 0,
                pstate: ARM64_RESET_PSTATE,
            },
        ),
    }
}

/// Codes of the kernel's exit record that this library tells apart.
pub const EXIT_IO: u32 = 2;

pub const EXIT_HYPERCALL: u32 = 3;

pub const EXIT_HLT: u32 = 5;

pub const EXIT_MMIO: u32 = 6;

pub const EXIT_IRQ_WINDOW_OPEN: u32 = 7;

pub const EXIT_SHUTDOWN: u32 = 8;

pub const EXIT_FAIL_ENTRY: u32 = 9;

pub const EXIT_INTR: u32 = 10;

/// Directions of a port I/O exit.
pub const IO_IN: u8 = 0;

pub const IO_OUT: u8 = 1;

/// The exit record as the kernel hands it back after a run: the exit code
/// and the fields of each kind of exit, of which the code says which hold.
#[derive(Clone, Debug, PartialEq, Eq)]
pub struct RawExit {
    pub reason: u32,
    pub io_direction: u8,
    pub io_port: u16,
    pub size: u8,
    pub mmio_addr: u64,
    pub mmio_is_write: bool,
    pub data: Vec<u8>,
    pub hypercall_nr: u64,
    pub hardware_reason: u64,
}

/// Why the guest stopped running, with what is needed to service it.
#[derive(Clone, Debug, PartialEq, Eq)]
pub enum VmExit {
    IoIn { port: u16, size: u8 },
    IoOut { port: u16, data: Vec<u8> },
    MmioRead { addr: u64, size: u8 },
    MmioWrite { addr: u64, data: Vec<u8> },
    Hlt,
    Shutdown,
    IrqWindowOpen,
    Hypercall { nr: u64 },
    FailEntry { hardware_reason: u64 },
    /// A stop was requested from outside while the guest ran.
    Interrupted,
    /// A code this library does not tell apart, kept for diagnostics.
    Unknown { code: u32 },
}

/// `e` is the normalized form of the raw exit record `raw`.
pub open spec fn normalizes_to(raw: RawExit, e: VmExit) -> bool {
    if raw.reason == EXIT_IO && raw.io_direction == IO_IN {
        e == VmExit::IoIn { port: raw.io_port, size: raw.size }
    } else if raw.reason == EXIT_IO && raw.io_direction == IO_OUT {
        match e {
            VmExit::IoOut { port, data } => port == raw.io_port && data@ == raw.data@,
            _ => false,
        }
    } else if raw.reason == EXIT_MMIO && !raw.mmio_is_write {
        e == VmExit::MmioRead { addr: raw.mmio_addr, size: raw.size }
    } else if raw.reason == EXIT_MMIO && raw.mmio_is_write {
        match e {
            VmExit::MmioWrite { addr, data } => addr == raw.mmio_addr && data@ == raw.data@,
            _ => false,
        }
    } else if raw.reason == EXIT_HLT {
        e == VmExit::Hlt
    } else if raw.reason == EXIT_SHUTDOWN {
        e == VmExit::Shutdown
    } else if raw.reason == EXIT_IRQ_WINDOW_OPEN {
        e == VmExit::IrqWindowOpen
    } else if raw.reason == EXIT_HYPERCALL {
        e == VmExit::Hypercall { nr: raw.hypercall_nr }
    } else if raw.reason == EXIT_FAIL_ENTRY {
        e == VmExit::FailEntry { hardware_reason: raw.hardware_reason }
    } else if raw.reason == EXIT_INTR {
        e == VmExit::Interrupted
    } else {
        e == VmExit::Unknown { code: raw.reason }
    }
}

/// Translates the kernel's exit record into the generic exit enumeration,
/// keeping its payload; an unrecognized code becomes `Unknown` with the code.
pub fn normalize_exit(raw: RawExit) -> (e: VmExit)
    ensures
        normalizes_to(raw, e),
{
    let reason = raw.reason;
    if reason == EXIT_IO && raw.io_direction == IO_IN {
        VmExit::IoIn { port: raw.io_port, size: raw.size }
    } else if reason == EXIT_IO && raw.io_direction == IO_OUT {
        VmExit::IoOut { port: raw.io_port, data: raw.data }
    } else if reason == EXIT_MMIO && !raw.mmio_is_write {
        VmExit::MmioRead { addr: raw.mmio_addr, size: raw.size }
    } else if reason == EXIT_MMIO {
        VmExit::MmioWrite { addr: raw.mmio_addr, data: raw.data }
    } else if reason == EXIT_HLT {
        VmExit::Hlt
    } else if reason == EXIT_SHUTDOWN {
        VmExit::Shutdown
    } else if reason == EXIT_IRQ_WINDOW_OPEN {
        VmExit::IrqWindowOpen
    } else if reason == EXIT_HYPERCALL {
        VmExit::Hypercall { nr: raw.hypercall_nr }
    } else if reason == EXIT_FAIL_ENTRY {
        VmExit::FailEntry { hardware_reason: raw.hardware_reason }
    } else if reason == EXIT_INTR {
        VmExit::Interrupted
    } else {
        VmExit::Unknown { code: reason }
    }
}

/// Whether a thread is inside `run` on the vCPU.
#[derive(Clone, Copy, Debug, PartialEq, Eq, Structural)]
pub enum RunState {
    Idle,
    Running,
    Exited,
}

/// A failure of an operation on one vCPU.
#[derive(Clone, Copy, Debug, PartialEq, Eq)]
pub enum HypervisorCpuError {
    /// The register set belongs to another architecture than the vCPU.
    ArchMismatch,
    /// A run is in progress on the vCPU.
    VcpuRunning,
    /// No run is in progress on the vCPU.
    NotRunning,
}

/// What save and restore carry of one vCPU.
#[derive(Clone, Copy, Debug, PartialEq, Eq)]
pub struct CpuState {
    pub index: u32,
    pub regs: CpuRegisters,
}

/// One virtual CPU of a VM.
#[derive(Debug)]
pub struct Vcpu {
    index: u32,
    arch: Arch,
    regs: CpuRegisters,
    run_state: RunState,
}

/// The abstract state of a vCPU.
pub ghost struct VcpuView {
    pub index: u32,
    pub arch: Arch,
    pub regs: CpuRegisters,
    pub run_state: RunState,
}

impl View for Vcpu {
    type V = VcpuView;

    closed spec fn view(&self) -> VcpuView {
        VcpuView {
            index: self.index,
            arch: self.arch,
            regs: self.regs,
            run_state: self.run_state,
        }
    }
}

impl VcpuView {
    /// The register set is of the vCPU's architecture.
    pub open spec fn wf(self) -> bool {
        self.regs.spec_arch() == self.arch
    }
}

/// The outcome of setting the registers of a vCPU in state `v` to `regs`.
pub open spec fn set_registers_outcome(v: VcpuView, regs: CpuRegisters) -> Result<
    VcpuView,
    HypervisorCpuError,
> {
    if v.run_state == RunState::Running {
        Err(HypervisorCpuError::VcpuRunning)
    } else if regs.spec_arch() != v.arch {
        Err(HypervisorCpuError::ArchMismatch)
    } else {
        Ok(VcpuView { regs, ..v })
    }
}

impl Vcpu {
    /// An idle vCPU of `arch` that holds `state`.
    pub(crate) fn with_state(arch: Arch, state: CpuState) -> (v: Vcpu)
        requires
            state.regs.spec_arch() == arch,
        ensures
            v@ == (VcpuView { index: state.index, arch, regs: state.regs, run_state: RunState::Idle }),
            v@.wf(),
    {
        Vcpu { index: state.index, arch, regs: state.regs, run_state: RunState::Idle }
    }

    pub fn index(&self) -> (r: u32)
        ensures
            r == self@.index,
    {
        self.index
    }

    pub fn arch(&self) -> (r: Arch)
        ensures
            r == self@.arch,
    {
        self.arch
    }

    pub fn run_state(&self) -> (r: RunState)
        ensures
            r == self@.run_state,
    {
        self.run_state
    }

    pub fn get_registers(&self) -> (r: CpuRegisters)
        ensures
            r == self@.regs,
    {
        self.regs
    }

    /// Replaces the register set; refused while a run is in progress or
    /// when the set is of another architecture, leaving the vCPU as it was.
    pub fn set_registers(&mut self, regs: CpuRegisters) -> (r: Result<(), HypervisorCpuError>)
        ensures
            match set_registers_outcome(old(self)@, regs) {
                Ok(v) => r is Ok && final(self)@ == v,
                Err(e) => r == Err::<(), HypervisorCpuError>(e) && final(self)@ == old(self)@,
            },
    {
        if self.run_state == RunState::Running {
            return Err(HypervisorCpuError::VcpuRunning);
        }
        if regs.arch() != self.arch {
            return Err(HypervisorCpuError::ArchMismatch);
        }
        self.regs = regs;
        Ok(())
    }

    /// The state that save carries of this vCPU.
    pub fn get_state(&self) -> (r: CpuState)
        ensures
            r == (CpuState { index: self@.index, regs: self@.regs }),
    {
        CpuState { index: self.index, regs: self.regs }
    }

    /// Marks the start of a run, before the guest is entered; refused while
    /// another run is in progress, as only one thread drives a vCPU.
    pub fn begin_run(&mut self) -> (r: Result<(), HypervisorCpuError>)
        ensures
            old(self)@.run_state == RunState::Running ==> r == Err::<(), HypervisorCpuError>(
                HypervisorCpuError::VcpuRunning,
            ) && final(self)@ == old(self)@,
            old(self)@.run_state != RunState::Running ==> r is Ok && final(self)@ == (VcpuView {
                run_state: RunState::Running,
                ..old(self)@
            }),
    {
        if self.run_state == RunState::Running {
            return Err(HypervisorCpuError::VcpuRunning);
        }
        self.run_state = RunState::Running;
        Ok(())
    }

    /// Ends the run in progress with the kernel's exit record and the
    /// register set the kernel reports after the exit, which the vCPU then
    /// holds, and returns the normalized exit. Refused when no run is in
    /// progress, or when the register set is of another architecture.
    pub fn complete_run(&mut self, raw: RawExit, regs: CpuRegisters) -> (r: Result<
        VmExit,
        HypervisorCpuError,
    >)
        ensures
            old(self)@.run_state != RunState::Running ==> r == Err::<VmExit, HypervisorCpuError>(
                HypervisorCpuError::NotRunning,
            ) && final(self)@ == old(self)@,
            old(self)@.run_state == RunState::Running && regs.spec_arch() != old(self)@.arch ==> r
                == Err::<VmExit, HypervisorCpuError>(HypervisorCpuError::ArchMismatch) && final(self)@
                == old(self)@,
            old(self)@.run_state == RunState::Running && regs.spec_arch() == old(self)@.arch ==> r is Ok
                && normalizes_to(raw, r->Ok_0) && final(self)@ == (VcpuView {
                run_state: RunState::Exited,
                regs,
                ..old(self)@
            }),
    {
        if self.run_state != RunState::Running {
            return Err(HypervisorCpuError::NotRunning);
        }
        if regs.arch() != self.arch {
            return Err(HypervisorCpuError::ArchMismatch);
        }
        self.run_state = RunState::Exited;
        self.regs = regs;
        Ok(normalize_exit(raw))
    }
}

/// Setting the registers of an idle vCPU to a set of its architecture and
/// reading them back gives that set exactly, and changes nothing else.
pub proof fn lemma_registers_round_trip(v: VcpuView, regs: CpuRegisters)
    requires
        v.run_state != RunState::Running,
        regs.spec_arch() == v.arch,
    ensures
        set_registers_outcome(v, regs) is Ok,
        set_registers_outcome(v, regs)->Ok_0.regs == regs,
        set_registers_outcome(v, regs)->Ok_0.index == v.index,
        set_registers_outcome(v, regs)->Ok_0.run_state == v.run_state,
        set_registers_outcome(v, regs)->Ok_0.arch == v.arch,
{
}

} // verus!
