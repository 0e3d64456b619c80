//! A generic abstraction around hardware virtualization: the bookkeeping of
//! virtual machines, virtual CPUs and devices, independent of the kernel
//! interface underneath, with the rules it keeps stated and proved.

pub mod cpu;
pub mod device;
pub mod hypervisor;
pub mod varlen;
pub mod vm;

pub use hypervisor::{
    Arch, BackendKind, BackendProbe, Capabilities, Hypervisor, HypervisorError, IoEventAddress,
    UserMemoryRegion,
};
pub use cpu::{
    reset_registers, normalize_exit, Arm64Registers, CpuRegisters, CpuState, HypervisorCpuError,
    RawExit, RunState, Vcpu, VmExit, X86Registers,
};
pub use device::{
    CreateDevice, Device, DeviceAttr, DeviceKind, DeviceState, HypervisorDeviceError,
};
pub use varlen::{vec_with_array_field, vec_with_size_in_bytes};
pub use vm::{
    DataMatch, HypervisorVmError, InterruptSourceConfig, IrqRoutingEntry, LegacyIrqSourceConfig,
    IoEventBinding, MsiIrqSourceConfig, Vm, VmSnapshot, VmState,
};

use hypervisor::probe_outcome;
use std::sync::Arc;
use vstd::prelude::*;

verus! {

/// Makes the shared handle on the backend that the probe describes; fails
/// with the reason when its interface is absent, closed to this process,
/// failing with a kernel error or of another version.
pub fn new(probe: BackendProbe) -> (r: Result<Arc<Hypervisor>, HypervisorError>)
    ensures
        match probe_outcome(probe) {
            Ok(h) => r is Ok && *r->Ok_0 == h,
            Err(e) => r == Err::<Arc<Hypervisor>, HypervisorError>(e),
        },
{
    let hv = hypervisor::open_backend(probe)?;
    Ok(Arc::new(hv))
}

} // verus!
