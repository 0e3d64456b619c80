//! The top-level handle: which kernel interface backs it, what it supports,
//! and the value types shared by the virtual machines it creates.

use vstd::prelude::*;

verus! {

/// The kernel interface that carries out the work.
#[derive(Clone, Copy, Debug, PartialEq, Eq, Structural)]
pub enum BackendKind {
    Kvm,
    Mshv,
}

/// The processor architecture of the guests.
#[derive(Clone, Copy, Debug, PartialEq, Eq, Structural)]
pub enum Arch {
    X86_64,
    Aarch64,
}

/// The interface version that the KVM backend speaks.
pub const KVM_API_VERSION: u32 = 12;

/// The interface version that the MSHV backend speaks.
pub const MSHV_API_VERSION: u32 = 1;

/// The interface version that `backend` must report to be usable.
pub open spec fn expected_api_version(backend: BackendKind) -> u32 {
    match backend {
        BackendKind::Kvm => KVM_API_VERSION,
        BackendKind::Mshv => MSHV_API_VERSION,
    }
}

/// What the host kernel reported when the backend's control interface was
/// opened and queried.
#[derive(Clone, Copy, Debug, PartialEq, Eq)]
pub struct BackendProbe {
    pub backend: BackendKind,
    pub arch: Arch,
    pub interface_present: bool,
    pub permission_granted: bool,
    /// A call on the interface failed for another reason.
    pub call_failed: bool,
    /// The kernel's error code of that failure, where it gave one.
    pub error_code: Option<i32>,
    pub api_version: u32,
    pub max_vcpus: u32,
    pub max_gsi: u32,
}

/// Why a hypervisor handle could not be made.
#[derive(Clone, Copy, Debug, PartialEq, Eq)]
pub enum HypervisorError {
    InterfaceUnavailable,
    PermissionDenied,
    /// A call on the interface failed, with the kernel's error code.
    KernelCall { code: Option<i32> },
    IncompatibleVersion { found: u32, expected: u32 },
}

/// The fixed set of features a hypervisor handle offers.
#[derive(Clone, Copy, Debug, PartialEq, Eq)]
pub struct Capabilities {
    /// Number of vCPUs one VM may have; valid indices are below it.
    pub max_vcpus: u32,
    /// Number of global system interrupts; valid GSIs are below it.
    pub max_gsi: u32,
}

/// A handle on one usable backend.
#[derive(Clone, Copy, Debug, PartialEq, Eq)]
pub struct Hypervisor {
    pub backend: BackendKind,
    pub arch: Arch,
    pub caps: Capabilities,
}

/// The outcome of opening a backend from what its probe reported: the
/// interface must be present, usable by this process and of the version this
/// library speaks, and no call on it may have failed.
pub open spec fn probe_outcome(p: BackendProbe) -> Result<Hypervisor, HypervisorError> {
    if !p.interface_present {
        Err(HypervisorError::InterfaceUnavailable)
    } else if !p.permission_granted {
        Err(HypervisorError::PermissionDenied)
    } else if p.call_failed {
        Err(HypervisorError::KernelCall { code: p.error_code })
    } else if p.api_version != expected_api_version(p.backend) {
        Err(
            HypervisorError::IncompatibleVersion {
                found: p.api_version,
                expected: expected_api_version(p.backend),
            },
        )
    } else {
        Ok(
            Hypervisor {
                backend: p.backend,
                arch: p.arch,
                caps: Capabilities { max_vcpus: p.max_vcpus, max_gsi: p.max_gsi },
            },
        )
    }
}

pub(crate) fn open_backend(p: BackendProbe) -> (r: Result<Hypervisor, HypervisorError>)
    ensures
        r == probe_outcome(p),
{
    if !p.interface_present {
        return Err(HypervisorError::InterfaceUnavailable);
    }
    if !p.permission_granted {
        return Err(HypervisorError::PermissionDenied);
    }
    if p.call_failed {
        return Err(HypervisorError::KernelCall { code: p.error_code });
    }
    let expected = match p.backend {
        BackendKind::Kvm => KVM_API_VERSION,
        BackendKind::Mshv => MSHV_API_VERSION,
    };
    if p.api_version != expected {
        return Err(HypervisorError::IncompatibleVersion { found: p.api_version, expected });
    }
    Ok(
        Hypervisor {
            backend: p.backend,
            arch: p.arch,
            caps: Capabilities { max_vcpus: p.max_vcpus, max_gsi: p.max_gsi },
        },
    )
}

impl Hypervisor {
    pub fn capabilities(&self) -> (r: Capabilities)
        ensures
            r == self.caps,
    {
        self.caps
    }
}

/// Bits of `UserMemoryRegion::flags`.
pub const USER_MEMORY_REGION_READ: u32 = 1;

pub const USER_MEMORY_REGION_WRITE: u32 = 2;

pub const USER_MEMORY_REGION_EXECUTE: u32 = 4;

pub const USER_MEMORY_REGION_LOG_DIRTY: u32 = 8;

/// Granularity of guest-physical addresses and sizes of memory regions.
pub const PAGE_SIZE: u64 = 4096;

/// A range of guest-physical memory backed by host memory.
#[derive(Clone, Copy, Debug, PartialEq, Eq, Structural)]
pub struct UserMemoryRegion {
    pub slot: u32,
    pub guest_phys_addr: u64,
    pub memory_size: u64,
    pub userspace_addr: u64,
    pub flags: u32,
}

impl UserMemoryRegion {
    /// One past the last guest-physical address of the region.
    pub open spec fn end(self) -> int {
        self.guest_phys_addr + self.memory_size
    }

    pub open spec fn is_page_aligned(self) -> bool {
        &&& self.guest_phys_addr % PAGE_SIZE == 0
        &&& self.memory_size % PAGE_SIZE == 0
    }

    /// The region ends within the 64-bit address space.
    pub open spec fn is_in_range(self) -> bool {
        self.end() <= u64::MAX + 1
    }

    pub open spec fn well_formed(self) -> bool {
        self.is_page_aligned() && self.is_in_range()
    }

    /// The two regions share a guest-physical address.
    pub open spec fn overlaps(self, other: UserMemoryRegion) -> bool {
        self.guest_phys_addr < other.end() && other.guest_phys_addr < self.end()
    }

    pub fn overlaps_with(&self, other: &UserMemoryRegion) -> (r: bool)
        ensures
            r == self.overlaps(*other),
    {
        let self_end = self.guest_phys_addr as u128 + self.memory_size as u128;
        let other_end = other.guest_phys_addr as u128 + other.memory_size as u128;
        (self.guest_phys_addr as u128) < other_end && (other.guest_phys_addr as u128) < self_end
    }
}

/// A guest address whose writes can be bound to an out-of-band signal.
#[derive(Clone, Copy, Debug, PartialEq, Eq, Structural)]
pub enum IoEventAddress {
    Pio(u64),
    Mmio(u64),
}

} // verus!
