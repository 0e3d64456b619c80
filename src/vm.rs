//! Virtual machines: the registry of guest memory regions, the IRQ routing
//! table, the vCPU factory, the lifecycle, and save and restore.

use crate::cpu::{reset_registers, spec_reset_registers, CpuState, RunState, Vcpu, VcpuView};
use crate::device::{
    attr_map, attrs_in_groups, spec_supports_device, supports_device, CreateDevice, Device,
    DeviceKind, DeviceState, DeviceView,
};
use crate::hypervisor::{
    Arch, BackendKind, Hypervisor, IoEventAddress, UserMemoryRegion, PAGE_SIZE,
};
use vstd::prelude::*;

verus! {

/// A legacy interrupt line: an interrupt controller and one of its pins.
#[derive(Clone, Copy, Debug, PartialEq, Eq)]
pub struct LegacyIrqSourceConfig {
    pub irqchip: u32,
    pub pin: u32,
}

/// A message-signaled interrupt: the address and data of the write.
#[derive(Clone, Copy, Debug, PartialEq, Eq)]
pub struct MsiIrqSourceConfig {
    pub high_addr: u32,
    pub low_addr: u32,
    pub data: u32,
    pub devid: u32,
}

#[derive(Clone, Copy, Debug, PartialEq, Eq)]
pub enum InterruptSourceConfig {
    LegacyIrq(LegacyIrqSourceConfig),
    MsiIrq(MsiIrqSourceConfig),
}

/// Routes one global system interrupt to its source.
#[derive(Clone, Copy, Debug, PartialEq, Eq)]
pub struct IrqRoutingEntry {
    pub gsi: u32,
    pub source: InterruptSourceConfig,
}

/// The value a guest write must carry for an I/O event to fire.
#[derive(Clone, Copy, Debug, PartialEq, Eq)]
pub enum DataMatch {
    DataMatch32(u32),
    DataMatch64(u64),
}

/// A guest write that signals `fd` out of band: one to `addr`, carrying
/// `datamatch` when that is given.
#[derive(Clone, Copy, Debug, PartialEq, Eq)]
pub struct IoEventBinding {
    pub addr: IoEventAddress,
    pub datamatch: Option<DataMatch>,
    pub fd: i32,
}

/// The lifecycle of a VM.
#[derive(Clone, Copy, Debug, PartialEq, Eq, Structural)]
pub enum VmState {
    Created,
    Running,
    Paused,
    Saved,
    Destroyed,
}

/// A failure of an operation on a VM; none of them changes the VM.
#[derive(Clone, Copy, Debug, PartialEq, Eq)]
pub enum HypervisorVmError {
    /// The VM was destroyed.
    Destroyed,
    /// The region's address or size is not a multiple of the page size.
    Misaligned,
    /// The region runs past the end of the address space.
    InvalidRegion,
    /// The region shares addresses with a registered one.
    Overlap,
    /// No registered region equals the one to remove.
    RegionNotFound,
    /// The routing entry at this index names a GSI the VM does not have.
    InvalidRoutingEntry { index: usize },
    /// The vCPU index is not below the hypervisor's vCPU limit.
    VcpuOverCapacity,
    /// A vCPU with this index exists already.
    DuplicateVcpu,
    /// The lifecycle does not allow the operation in the current state.
    InvalidTransition,
    /// The snapshot was taken on another backend or architecture.
    StateMismatch,
    /// The snapshot's contents break the rules of a VM.
    InvalidSnapshot,
    /// The vCPUs handed over are not those of the VM.
    VcpuSetMismatch,
    /// The devices handed over are not those of the VM.
    DeviceSetMismatch,
    /// A run is in progress on one of the vCPUs.
    VcpuRunning,
    /// The backend cannot create a device of that kind.
    UnsupportedDevice,
    /// A binding for the same address and data exists already.
    IoEventExists,
    /// No binding for that address and data exists.
    IoEventNotFound,
}

/// The whole-VM state that restore brings back: regions, routing, the
/// state of each vCPU and device, and the I/O event bindings.
#[derive(Clone, Debug)]
pub struct VmSnapshot {
    pub backend: BackendKind,
    pub arch: Arch,
    pub regions: Vec<UserMemoryRegion>,
    pub routing: Vec<IrqRoutingEntry>,
    pub vcpus: Vec<CpuState>,
    pub ioevents: Vec<IoEventBinding>,
    pub devices: Vec<DeviceState>,
}

/// One virtual machine.
#[derive(Debug)]
pub struct Vm {
    hv: Hypervisor,
    state: VmState,
    regions: Vec<UserMemoryRegion>,
    routing: Vec<IrqRoutingEntry>,
    vcpu_ids: Vec<u32>,
    devices: Vec<DeviceKind>,
    ioevents: Vec<IoEventBinding>,
}

/// The abstract state of a VM.
pub ghost struct VmView {
    pub hv: Hypervisor,
    pub state: VmState,
    pub regions: Seq<UserMemoryRegion>,
    pub routing: Seq<IrqRoutingEntry>,
    pub vcpu_ids: Seq<u32>,
    pub devices: Seq<DeviceKind>,
    pub ioevents: Seq<IoEventBinding>,
}

impl View for Vm {
    type V = VmView;

    closed spec fn view(&self) -> VmView {
        VmView {
            hv: self.hv,
            state: self.state,
            regions: self.regions@,
            routing: self.routing@,
            vcpu_ids: self.vcpu_ids@,
            devices: self.devices@,
            ioevents: self.ioevents@,
        }
    }
}

/// No two regions of `rs` share a guest-physical address.
pub open spec fn regions_disjoint(rs: Seq<UserMemoryRegion>) -> bool {
    forall|i: int, j: int| 0 <= i < j < rs.len() ==> !(#[trigger] rs[i]).overlaps(#[trigger] rs[j])
}

/// Every region of `rs` is page-aligned and within the address space, and
/// no two of them overlap.
pub open spec fn valid_region_set(rs: Seq<UserMemoryRegion>) -> bool {
    &&& forall|i: int| 0 <= i < rs.len() ==> (#[trigger] rs[i]).well_formed()
    &&& regions_disjoint(rs)
}

/// No index occurs twice in `ids`.
pub open spec fn unique_ids(ids: Seq<u32>) -> bool {
    forall|i: int, j: int| 0 <= i < j < ids.len() ==> #[trigger] ids[i] != #[trigger] ids[j]
}

/// The entry routes a GSI that the VM has.
pub open spec fn valid_routing_entry(e: IrqRoutingEntry, max_gsi: u32) -> bool {
    e.gsi < max_gsi
}

pub open spec fn valid_routing(es: Seq<IrqRoutingEntry>, max_gsi: u32) -> bool {
    forall|i: int| 0 <= i < es.len() ==> valid_routing_entry(#[trigger] es[i], max_gsi)
}

/// Every vCPU index is below the limit and used once.
pub open spec fn valid_vcpu_ids(ids: Seq<u32>, max_vcpus: u32) -> bool {
    &&& unique_ids(ids)
    &&& forall|i: int| 0 <= i < ids.len() ==> #[trigger] ids[i] < max_vcpus
}

impl VmView {
    pub open spec fn wf(self) -> bool {
        &&& valid_region_set(self.regions)
        &&& valid_routing(self.routing, self.hv.caps.max_gsi)
        &&& valid_vcpu_ids(self.vcpu_ids, self.hv.caps.max_vcpus)
        &&& distinct_ioevents(self.ioevents)
        &&& forall|i: int|
            0 <= i < self.devices.len() ==> spec_supports_device(
                self.hv.backend,
                self.hv.arch,
                #[trigger] self.devices[i],
            )
    }

    /// Just created: nothing registered and never started.
    pub open spec fn is_fresh(self) -> bool {
        &&& self.state == VmState::Created
        &&& self.regions.len() == 0
        &&& self.routing.len() == 0
        &&& self.vcpu_ids.len() == 0
        &&& self.devices.len() == 0
        &&& self.ioevents.len() == 0
    }
}

/// The binding fires on the guest writes that `addr` and `datamatch` name.
pub open spec fn same_trigger(a: IoEventBinding, addr: IoEventAddress, datamatch: Option<DataMatch>) -> bool {
    a.addr == addr && a.datamatch == datamatch
}

/// No two bindings fire on the same guest writes.
pub open spec fn distinct_ioevents(bs: Seq<IoEventBinding>) -> bool {
    forall|i: int, j: int|
        0 <= i < j < bs.len() ==> !same_trigger(#[trigger] bs[i], (#[trigger] bs[j]).addr, bs[j].datamatch)
}

fn same_datamatch(a: Option<DataMatch>, b: Option<DataMatch>) -> (r: bool)
    ensures
        r == (a == b),
{
    match (a, b) {
        (None, None) => true,
        (Some(DataMatch::DataMatch32(x)), Some(DataMatch::DataMatch32(y))) => x == y,
        (Some(DataMatch::DataMatch64(x)), Some(DataMatch::DataMatch64(y))) => x == y,
        _ => false,
    }
}

/// The region set after registering `r` in `rs`, or why it is refused.
pub open spec fn region_insert(rs: Seq<UserMemoryRegion>, r: UserMemoryRegion) -> Result<
    Seq<UserMemoryRegion>,
    HypervisorVmError,
> {
    if !r.is_page_aligned() {
        Err(HypervisorVmError::Misaligned)
    } else if !r.is_in_range() {
        Err(HypervisorVmError::InvalidRegion)
    } else if exists|i: int| 0 <= i < rs.len() && (#[trigger] rs[i]).overlaps(r) {
        Err(HypervisorVmError::Overlap)
    } else {
        Ok(rs.push(r))
    }
}

/// Registers the regions of `new`, in order, after those of `rs`; stops at
/// the first refusal.
pub open spec fn region_insert_all(rs: Seq<UserMemoryRegion>, new: Seq<UserMemoryRegion>) -> Result<
    Seq<UserMemoryRegion>,
    HypervisorVmError,
>
    decreases new.len(),
{
    if new.len() == 0 {
        Ok(rs)
    } else {
        match region_insert(rs, new[0]) {
            Ok(next) => region_insert_all(next, new.drop_first()),
            Err(e) => Err(e),
        }
    }
}

/// `i` is the first index at which `rs` holds `r`.
pub open spec fn is_first_index_of(rs: Seq<UserMemoryRegion>, r: UserMemoryRegion, i: int) -> bool {
    &&& 0 <= i < rs.len()
    &&& rs[i] == r
    &&& forall|j: int| 0 <= j < i ==> rs[j] != r
}

/// The region set after removing the first region equal to `r` from `rs`,
/// or why it is refused.
pub open spec fn region_remove(rs: Seq<UserMemoryRegion>, r: UserMemoryRegion) -> Result<
    Seq<UserMemoryRegion>,
    HypervisorVmError,
> {
    if exists|i: int| 0 <= i < rs.len() && rs[i] == r {
        let i = choose|i: int| is_first_index_of(rs, r, i);
        Ok(rs.remove(i))
    } else {
        Err(HypervisorVmError::RegionNotFound)
    }
}

/// The routing table in force after asking to install `es` in a VM in state
/// `v`: `es` when the VM is live and every entry is valid, else the table
/// that was there.
pub open spec fn routing_after(v: VmView, es: Seq<IrqRoutingEntry>) -> Seq<IrqRoutingEntry> {
    if v.state != VmState::Destroyed && valid_routing(es, v.hv.caps.max_gsi) {
        es
    } else {
        v.routing
    }
}

/// The outcome of restoring a snapshot with these parts into a VM in state
/// `v`.
pub open spec fn restore_outcome(
    v: VmView,
    backend: BackendKind,
    arch: Arch,
    regions: Seq<UserMemoryRegion>,
    routing: Seq<IrqRoutingEntry>,
    vcpus: Seq<CpuState>,
    ioevents: Seq<IoEventBinding>,
    devices: Seq<DeviceState>,
) -> Result<VmView, HypervisorVmError> {
    if backend != v.hv.backend || arch != v.hv.arch {
        Err(HypervisorVmError::StateMismatch)
    } else if v.state == VmState::Destroyed {
        Err(HypervisorVmError::Destroyed)
    } else if !v.is_fresh() {
        Err(HypervisorVmError::InvalidTransition)
    } else if !valid_snapshot_parts(v.hv, regions, routing, vcpus) || !distinct_ioevents(
        ioevents,
    ) || !valid_device_states(v.hv, devices) {
        Err(HypervisorVmError::InvalidSnapshot)
    } else {
        Ok(
            VmView {
                state: VmState::Running,
                regions,
                routing,
                vcpu_ids: state_indices(vcpus),
                ioevents,
                devices: state_kinds(devices),
                ..v
            },
        )
    }
}

/// Each device state is of a kind the backend supports, and its attribute
/// accesses fall in groups such a device has.
pub open spec fn valid_device_states(hv: Hypervisor, devices: Seq<DeviceState>) -> bool {
    forall|i: int|
        0 <= i < devices.len() ==> spec_supports_device(hv.backend, hv.arch, (#[trigger] devices[i]).kind)
            && attrs_in_groups(devices[i].kind, devices[i].attrs@)
}

/// The kinds of the device states, in order.
pub open spec fn state_kinds(devices: Seq<DeviceState>) -> Seq<DeviceKind> {
    devices.map_values(|d: DeviceState| d.kind)
}

/// The `i`-th device handed to save is the `i`-th one the VM created.
pub open spec fn device_belongs(v: VmView, d: Device, i: int) -> bool {
    d@.handle == i && d@.kind == v.devices[i]
}

/// `states` records each of `devices`, in order: its kind and accesses
/// that give its attribute values.
pub open spec fn device_states_match(devices: Seq<Device>, states: Seq<DeviceState>) -> bool {
    &&& states.len() == devices.len()
    &&& forall|i: int|
        0 <= i < devices.len() ==> (#[trigger] states[i]).kind == devices[i]@.kind && attr_map(
            states[i].attrs@,
        ) == devices[i]@.attrs && attrs_in_groups(states[i].kind, states[i].attrs@)
}

/// The indices of the vCPU states, in order.
pub open spec fn state_indices(vcpus: Seq<CpuState>) -> Seq<u32> {
    vcpus.map_values(|c: CpuState| c.index)
}

/// The parts of a snapshot obey the rules of a VM on `hv`.
pub open spec fn valid_snapshot_parts(
    hv: Hypervisor,
    regions: Seq<UserMemoryRegion>,
    routing: Seq<IrqRoutingEntry>,
    vcpus: Seq<CpuState>,
) -> bool {
    &&& valid_region_set(regions)
    &&& valid_routing(routing, hv.caps.max_gsi)
    &&& valid_vcpu_ids(state_indices(vcpus), hv.caps.max_vcpus)
    &&& forall|i: int| 0 <= i < vcpus.len() ==> (#[trigger] vcpus[i]).regs.spec_arch() == hv.arch
}

/// A copy of a vector of copyable values.
fn copy_vec<T: Copy>(v: &Vec<T>) -> (r: Vec<T>)
    ensures
        r@ == v@,
{
    let mut r: Vec<T> = Vec::new();
    let mut i: usize = 0;
    while i < v.len()
        invariant
            i <= v.len(),
            r@ == v@.take(i as int),
        decreases v.len() - i,
    {
        r.push(v[i]);
        i = i + 1;
        proof {
            assert(r@ =~= v@.take(i as int));
        }
    }
    proof {
        assert(v@.take(v.len() as int) =~= v@);
    }
    r
}

impl Hypervisor {
    /// A new VM on this hypervisor: created, with no regions, routes or
    /// vCPUs.
    pub fn create_vm(&self) -> (vm: Vm)
        ensures
            vm@.hv == *self,
            vm@.is_fresh(),
            vm@.wf(),
    {
        Vm {
            hv: *self,
            state: VmState::Created,
            regions: Vec::new(),
            routing: Vec::new(),
            vcpu_ids: Vec::new(),
            devices: Vec::new(),
            ioevents: Vec::new(),
        }
    }
}

impl Vm {
    pub fn state(&self) -> (r: VmState)
        ensures
            r == self@.state,
    {
        self.state
    }

    pub fn hypervisor(&self) -> (r: Hypervisor)
        ensures
            r == self@.hv,
    {
        self.hv
    }

    /// The registered regions, in the order they were registered.
    pub fn user_memory_regions(&self) -> (r: Vec<UserMemoryRegion>)
        ensures
            r@ == self@.regions,
    {
        copy_vec(&self.regions)
    }

    /// Registers a guest memory region. It must be page-aligned, within the
    /// address space and clear of every registered region; when it is not,
    /// nothing changes.
    pub fn set_user_memory_region(&mut self, region: UserMemoryRegion) -> (r: Result<
        (),
        HypervisorVmError,
    >)
        requires
            old(self)@.wf(),
        ensures
            final(self)@.wf(),
            old(self)@.state == VmState::Destroyed ==> r == Err::<(), HypervisorVmError>(
                HypervisorVmError::Destroyed,
            ) && final(self)@ == old(self)@,
            old(self)@.state != VmState::Destroyed ==> match region_insert(
                old(self)@.regions,
                region,
            ) {
                Ok(rs) => r is Ok && final(self)@ == (VmView { regions: rs, ..old(self)@ }),
                Err(e) => r == Err::<(), HypervisorVmError>(e) && final(self)@ == old(self)@,
            },
    {
        if self.state == VmState::Destroyed {
            return Err(HypervisorVmError::Destroyed);
        }
        if region.guest_phys_addr % PAGE_SIZE != 0 || region.memory_size % PAGE_SIZE != 0 {
            return Err(HypervisorVmError::Misaligned);
        }
        if region.guest_phys_addr as u128 + region.memory_size as u128
            > u64::MAX as u128 + 1 {
            return Err(HypervisorVmError::InvalidRegion);
        }
        let mut i: usize = 0;
        while i < self.regions.len()
            invariant
                i <= self.regions@.len(),
                self@ == old(self)@,
                old(self)@.wf(),
                old(self)@.state != VmState::Destroyed,
                region.is_page_aligned(),
                region.is_in_range(),
                forall|j: int| 0 <= j < i ==> !(#[trigger] self.regions@[j]).overlaps(region),
            decreases self.regions@.len() - i,
        {
            if self.regions[i].overlaps_with(&region) {
                assert(old(self)@.regions[i as int].overlaps(region));
                return Err(HypervisorVmError::Overlap);
            }
            i = i + 1;
        }
        self.regions.push(region);
        Ok(())
    }

    /// Removes the first registered region equal to `region`; when there is
    /// none, nothing changes.
    pub fn remove_user_memory_region(&mut self, region: UserMemoryRegion) -> (r: Result<
        (),
        HypervisorVmError,
    >)
        requires
            old(self)@.wf(),
        ensures
            final(self)@.wf(),
            old(self)@.state == VmState::Destroyed ==> r == Err::<(), HypervisorVmError>(
                HypervisorVmError::Destroyed,
            ) && final(self)@ == old(self)@,
            old(self)@.state != VmState::Destroyed ==> match region_remove(
                old(self)@.regions,
                region,
            ) {
                Ok(rs) => r is Ok && final(self)@ == (VmView { regions: rs, ..old(self)@ }),
                Err(e) => r == Err::<(), HypervisorVmError>(e) && final(self)@ == old(self)@,
            },
    {
        if self.state == VmState::Destroyed {
            return Err(HypervisorVmError::Destroyed);
        }
        let mut i: usize = 0;
        while i < self.regions.len()
            invariant
                i <= self.regions@.len(),
                self@ == old(self)@,
                old(self)@.wf(),
                old(self)@.state != VmState::Destroyed,
                forall|j: int| 0 <= j < i ==> self.regions@[j] != region,
            decreases self.regions@.len() - i,
        {
            if self.regions[i] == region {
                proof {
                    let rs = self.regions@;
                    assert(is_first_index_of(rs, region, i as int));
                    let k = choose|k: int| is_first_index_of(rs, region, k);
                    if k < i {
                        assert(rs[k] == region);
                    } else if k > i {
                        assert(rs[i as int] == region);
                    }
                    assert(k == i);
                }
                let ghost before = self.regions@;
                self.regions.remove(i);
                proof {
                    lemma_remove_keeps_valid(before, i as int);
                }
                return Ok(());
            }
            i = i + 1;
        }
        Err(HypervisorVmError::RegionNotFound)
    }

    /// The routing table in force.
    pub fn irq_routing(&self) -> (r: Vec<IrqRoutingEntry>)
        ensures
            r@ == self@.routing,
    {
        copy_vec(&self.routing)
    }

    /// Replaces the whole routing table with `entries` when every entry names
    /// a GSI of the VM; otherwise reports the first entry that does not and
    /// keeps the table that was there.
    pub fn set_irq_routing(&mut self, entries: &Vec<IrqRoutingEntry>) -> (r: Result<
        (),
        HypervisorVmError,
    >)
        requires
            old(self)@.wf(),
        ensures
            final(self)@.wf(),
            final(self)@ == (VmView { routing: routing_after(old(self)@, entries@), ..old(self)@ }),
            old(self)@.state == VmState::Destroyed ==> r == Err::<(), HypervisorVmError>(
                HypervisorVmError::Destroyed,
            ),
            old(self)@.state != VmState::Destroyed ==> (r is Ok <==> valid_routing(
                entries@,
                old(self)@.hv.caps.max_gsi,
            )),
            old(self)@.state != VmState::Destroyed && r is Err ==> match r->Err_0 {
                HypervisorVmError::InvalidRoutingEntry { index } => {
                    &&& index < entries@.len()
                    &&& !valid_routing_entry(entries@[index as int], old(self)@.hv.caps.max_gsi)
                    &&& forall|j: int|
                        0 <= j < index ==> valid_routing_entry(
                            #[trigger] entries@[j],
                            old(self)@.hv.caps.max_gsi,
                        )
                },
                _ => false,
            },
    {
        if self.state == VmState::Destroyed {
            return Err(HypervisorVmError::Destroyed);
        }
        let max_gsi = self.hv.caps.max_gsi;
        let mut i: usize = 0;
        while i < entries.len()
            invariant
                i <= entries@.len(),
                self@ == old(self)@,
                old(self)@.wf(),
                old(self)@.state != VmState::Destroyed,
                max_gsi == self.hv.caps.max_gsi,
                forall|j: int| 0 <= j < i ==> valid_routing_entry(#[trigger] entries@[j], max_gsi),
            decreases entries@.len() - i,
        {
            if entries[i].gsi >= max_gsi {
                return Err(HypervisorVmError::InvalidRoutingEntry { index: i });
            }
            i = i + 1;
        }
        self.routing = copy_vec(entries);
        Ok(())
    }

    /// Creates the vCPU with the given index, in its reset state. The index
    /// must be below the hypervisor's vCPU limit and not yet in use.
    pub fn create_vcpu(&mut self, index: u32) -> (r: Result<Vcpu, HypervisorVmError>)
        requires
            old(self)@.wf(),
        ensures
            final(self)@.wf(),
            old(self)@.state == VmState::Destroyed ==> r == Err::<Vcpu, HypervisorVmError>(
                HypervisorVmError::Destroyed,
            ) && final(self)@ == old(self)@,
            old(self)@.state != VmState::Destroyed && index >= old(self)@.hv.caps.max_vcpus ==> r
                == Err::<Vcpu, HypervisorVmError>(HypervisorVmError::VcpuOverCapacity) && final(self)@ == old(self)@,
            old(self)@.state != VmState::Destroyed && index < old(self)@.hv.caps.max_vcpus
                && old(self)@.vcpu_ids.contains(index) ==> r == Err::<Vcpu, HypervisorVmError>(
                HypervisorVmError::DuplicateVcpu,
            ) && final(self)@ == old(self)@,
            old(self)@.state != VmState::Destroyed && index < old(self)@.hv.caps.max_vcpus
                && !old(self)@.vcpu_ids.contains(index) ==> {
                &&& r is Ok
                &&& r->Ok_0@ == (VcpuView {
                    index,
                    arch: old(self)@.hv.arch,
                    regs: spec_reset_registers(old(self)@.hv.arch),
                    run_state: RunState::Idle,
                })
                &&& final(self)@ == (VmView {
                    vcpu_ids: old(self)@.vcpu_ids.push(index),
                    ..old(self)@
                })
            },
    {
        if self.state == VmState::Destroyed {
            return Err(HypervisorVmError::Destroyed);
        }
        if index >= self.hv.caps.max_vcpus {
            return Err(HypervisorVmError::VcpuOverCapacity);
        }
        let mut i: usize = 0;
        while i < self.vcpu_ids.len()
            invariant
                i <= self.vcpu_ids@.len(),
                self@ == old(self)@,
                old(self)@.wf(),
                old(self)@.state != VmState::Destroyed,
                index < old(self)@.hv.caps.max_vcpus,
                forall|j: int| 0 <= j < i ==> self.vcpu_ids@[j] != index,
            decreases self.vcpu_ids@.len() - i,
        {
            if self.vcpu_ids[i] == index {
                assert(self.vcpu_ids@[i as int] == index);
                return Err(HypervisorVmError::DuplicateVcpu);
            }
            i = i + 1;
        }
        let arch = self.hv.arch;
        let regs = reset_registers(arch);
        self.vcpu_ids.push(index);
        Ok(Vcpu::with_state(arch, CpuState { index, regs }))
    }

    /// Starts a created VM or resumes a paused one.
    pub fn resume(&mut self) -> (r: Result<(), HypervisorVmError>)
        ensures
            final(self)@ == (VmView { state: final(self)@.state, ..old(self)@ }),
            old(self)@.state == VmState::Destroyed ==> r == Err::<(), HypervisorVmError>(
                HypervisorVmError::Destroyed,
            ) && final(self)@ == old(self)@,
            (old(self)@.state == VmState::Created || old(self)@.state == VmState::Paused) ==> r is Ok
                && final(self)@.state == VmState::Running,
            (old(self)@.state == VmState::Running || old(self)@.state == VmState::Saved) ==> r
                == Err::<(), HypervisorVmError>(HypervisorVmError::InvalidTransition) && final(self)@ == old(self)@,
    {
        match self.state {
            VmState::Destroyed => Err(HypervisorVmError::Destroyed),
            VmState::Created | VmState::Paused => {
                self.state = VmState::Running;
                Ok(())
            },
            _ => Err(HypervisorVmError::InvalidTransition),
        }
    }

    /// Pauses a running VM. The caller stops its vCPUs first.
    pub fn pause(&mut self) -> (r: Result<(), HypervisorVmError>)
        ensures
            final(self)@ == (VmView { state: final(self)@.state, ..old(self)@ }),
            old(self)@.state == VmState::Destroyed ==> r == Err::<(), HypervisorVmError>(
                HypervisorVmError::Destroyed,
            ) && final(self)@ == old(self)@,
            old(self)@.state == VmState::Running ==> r is Ok && final(self)@.state
                == VmState::Paused,
            old(self)@.state != VmState::Running && old(self)@.state != VmState::Destroyed ==> r
                == Err::<(), HypervisorVmError>(HypervisorVmError::InvalidTransition) && final(self)@ == old(self)@,
    {
        match self.state {
            VmState::Destroyed => Err(HypervisorVmError::Destroyed),
            VmState::Running => {
                self.state = VmState::Paused;
                Ok(())
            },
            _ => Err(HypervisorVmError::InvalidTransition),
        }
    }

    /// Ends the VM for good: every later operation fails.
    pub fn destroy(&mut self) -> (r: Result<(), HypervisorVmError>)
        ensures
            final(self)@ == (VmView { state: VmState::Destroyed, ..old(self)@ }),
            r is Ok <==> old(self)@.state != VmState::Destroyed,
            r is Err ==> r == Err::<(), HypervisorVmError>(HypervisorVmError::Destroyed),
    {
        if self.state == VmState::Destroyed {
            return Err(HypervisorVmError::Destroyed);
        }
        self.state = VmState::Destroyed;
        Ok(())
    }

    /// Creates a device of the kind the descriptor names, when the backend
    /// supports it on this architecture.
    pub fn create_device(&mut self, descriptor: CreateDevice) -> (r: Result<Device, HypervisorVmError>)
        requires
            old(self)@.wf(),
        ensures
            final(self)@.wf(),
            old(self)@.state == VmState::Destroyed ==> r == Err::<Device, HypervisorVmError>(
                HypervisorVmError::Destroyed,
            ) && final(self)@ == old(self)@,
            old(self)@.state != VmState::Destroyed && !spec_supports_device(
                old(self)@.hv.backend,
                old(self)@.hv.arch,
                descriptor.kind,
            ) ==> r == Err::<Device, HypervisorVmError>(HypervisorVmError::UnsupportedDevice)
                && final(self)@ == old(self)@,
            old(self)@.state != VmState::Destroyed && spec_supports_device(
                old(self)@.hv.backend,
                old(self)@.hv.arch,
                descriptor.kind,
            ) ==> {
                &&& r is Ok
                &&& r->Ok_0@.kind == descriptor.kind
                &&& r->Ok_0@.handle == old(self)@.devices.len()
                &&& r->Ok_0@.attrs.is_empty()
                &&& final(self)@ == (VmView {
                    devices: old(self)@.devices.push(descriptor.kind),
                    ..old(self)@
                })
            },
    {
        if self.state == VmState::Destroyed {
            return Err(HypervisorVmError::Destroyed);
        }
        if !supports_device(self.hv.backend, self.hv.arch, descriptor.kind) {
            return Err(HypervisorVmError::UnsupportedDevice);
        }
        let handle = self.devices.len();
        self.devices.push(descriptor.kind);
        let d = Device::create(descriptor.kind, handle);
        proof {
            assert(d@.attrs =~= Map::<(u32, u64), u64>::empty());
        }
        Ok(d)
    }

    /// The I/O event bindings, in the order they were made.
    pub fn ioevents(&self) -> (r: Vec<IoEventBinding>)
        ensures
            r@ == self@.ioevents,
    {
        copy_vec(&self.ioevents)
    }

    /// Binds guest writes to `addr`, carrying `datamatch` when that is
    /// given, to a signal on `fd`; refused when such a binding exists.
    pub fn register_ioevent(
        &mut self,
        addr: IoEventAddress,
        datamatch: Option<DataMatch>,
        fd: i32,
    ) -> (r: Result<(), HypervisorVmError>)
        requires
            old(self)@.wf(),
        ensures
            final(self)@.wf(),
            old(self)@.state == VmState::Destroyed ==> r == Err::<(), HypervisorVmError>(
                HypervisorVmError::Destroyed,
            ) && final(self)@ == old(self)@,
            old(self)@.state != VmState::Destroyed && (exists|i: int|
                0 <= i < old(self)@.ioevents.len() && same_trigger(
                    #[trigger] old(self)@.ioevents[i],
                    addr,
                    datamatch,
                )) ==> r == Err::<(), HypervisorVmError>(HypervisorVmError::IoEventExists) && final(self)@ == old(self)@,
            old(self)@.state != VmState::Destroyed && !(exists|i: int|
                0 <= i < old(self)@.ioevents.len() && same_trigger(
                    #[trigger] old(self)@.ioevents[i],
                    addr,
                    datamatch,
                )) ==> r is Ok && final(self)@ == (VmView {
                ioevents: old(self)@.ioevents.push(IoEventBinding { addr, datamatch, fd }),
                ..old(self)@
            }),
    {
        if self.state == VmState::Destroyed {
            return Err(HypervisorVmError::Destroyed);
        }
        let mut i: usize = 0;
        while i < self.ioevents.len()
            invariant
                i <= self.ioevents@.len(),
                self@ == old(self)@,
                old(self)@.wf(),
                old(self)@.state != VmState::Destroyed,
                forall|j: int| 0 <= j < i ==> !same_trigger(#[trigger] self.ioevents@[j], addr, datamatch),
            decreases self.ioevents@.len() - i,
        {
            let b = self.ioevents[i];
            if b.addr == addr && same_datamatch(b.datamatch, datamatch) {
                assert(same_trigger(self.ioevents@[i as int], addr, datamatch));
                return Err(HypervisorVmError::IoEventExists);
            }
            i = i + 1;
        }
        self.ioevents.push(IoEventBinding { addr, datamatch, fd });
        Ok(())
    }

    /// Removes the binding for `addr` and `datamatch`; refused when there is
    /// none.
    pub fn unregister_ioevent(&mut self, addr: IoEventAddress, datamatch: Option<DataMatch>) -> (r:
        Result<(), HypervisorVmError>)
        requires
            old(self)@.wf(),
        ensures
            final(self)@.wf(),
            old(self)@.state == VmState::Destroyed ==> r == Err::<(), HypervisorVmError>(
                HypervisorVmError::Destroyed,
            ) && final(self)@ == old(self)@,
            old(self)@.state != VmState::Destroyed && !(exists|i: int|
                0 <= i < old(self)@.ioevents.len() && same_trigger(
                    #[trigger] old(self)@.ioevents[i],
                    addr,
                    datamatch,
                )) ==> r == Err::<(), HypervisorVmError>(HypervisorVmError::IoEventNotFound) && final(self)@ == old(self)@,
            old(self)@.state != VmState::Destroyed ==> forall|i: int|
                0 <= i < old(self)@.ioevents.len() && same_trigger(
                    #[trigger] old(self)@.ioevents[i],
                    addr,
                    datamatch,
                ) ==> r is Ok && final(self)@ == (VmView {
                    ioevents: old(self)@.ioevents.remove(i),
                    ..old(self)@
                }),
    {
        if self.state == VmState::Destroyed {
            return Err(HypervisorVmError::Destroyed);
        }
        let mut i: usize = 0;
        while i < self.ioevents.len()
            invariant
                i <= self.ioevents@.len(),
                self@ == old(self)@,
                old(self)@.wf(),
                old(self)@.state != VmState::Destroyed,
                forall|j: int| 0 <= j < i ==> !same_trigger(#[trigger] self.ioevents@[j], addr, datamatch),
            decreases self.ioevents@.len() - i,
        {
            let b = self.ioevents[i];
            if b.addr == addr && same_datamatch(b.datamatch, datamatch) {
                let ghost before = self.ioevents@;
                proof {
                    assert forall|k: int|
                        0 <= k < before.len() && same_trigger(#[trigger] before[k], addr, datamatch)
                        implies k == i by {
                        if k > i {
                            assert(!same_trigger(before[i as int], before[k].addr, before[k].datamatch));
                        }
                    }
                }
                self.ioevents.remove(i);
                proof {
                    let out = self.ioevents@;
                    assert forall|a: int, c: int| 0 <= a < c < out.len() implies !same_trigger(
                        #[trigger] out[a],
                        (#[trigger] out[c]).addr,
                        out[c].datamatch,
                    ) by {
                        let a0 = if a < i { a } else { a + 1 };
                        let c0 = if c < i { c } else { c + 1 };
                        assert(out[a] == before[a0]);
                        assert(out[c] == before[c0]);
                    }
                }
                return Ok(());
            }
            i = i + 1;
        }
        Err(HypervisorVmError::IoEventNotFound)
    }

    /// Captures the VM-wide state (regions, routing, I/O event bindings) and
    /// that of each of its vCPUs and devices, which must be handed over in
    /// the order they were created; the vCPUs must be stopped. The VM must
    /// be running or paused; it is then saved.
    pub fn save(&mut self, vcpus: &Vec<Vcpu>, devices: &Vec<Device>) -> (r: Result<
        VmSnapshot,
        HypervisorVmError,
    >)
        requires
            old(self)@.wf(),
            forall|i: int| 0 <= i < vcpus@.len() ==> (#[trigger] vcpus@[i])@.wf(),
        ensures
            final(self)@.wf(),
            match save_check(old(self)@, vcpus@, devices@) {
                Some(e) => r == Err::<VmSnapshot, HypervisorVmError>(e) && final(self)@ == old(
                    self,
                )@,
                None => {
                    &&& r is Ok
                    &&& r->Ok_0.backend == old(self)@.hv.backend
                    &&& r->Ok_0.arch == old(self)@.hv.arch
                    &&& r->Ok_0.regions@ == old(self)@.regions
                    &&& r->Ok_0.routing@ == old(self)@.routing
                    &&& r->Ok_0.vcpus@ == states_of(vcpus@)
                    &&& r->Ok_0.ioevents@ == old(self)@.ioevents
                    &&& device_states_match(devices@, r->Ok_0.devices@)
                    &&& final(self)@ == (VmView { state: VmState::Saved, ..old(self)@ })
                },
            },
    {
        if self.state == VmState::Destroyed {
            return Err(HypervisorVmError::Destroyed);
        }
        if self.state != VmState::Running && self.state != VmState::Paused {
            return Err(HypervisorVmError::InvalidTransition);
        }
        if vcpus.len() != self.vcpu_ids.len() {
            return Err(HypervisorVmError::VcpuSetMismatch);
        }
        proof {
            assert(self@ == old(self)@);
        }
        let mut states: Vec<CpuState> = Vec::new();
        let mut i: usize = 0;
        while i < vcpus.len()
            invariant
                i <= vcpus@.len(),
                self@ == old(self)@,
                old(self)@.wf(),
                old(self)@.state == VmState::Running || old(self)@.state == VmState::Paused,
                vcpus@.len() == self.vcpu_ids@.len(),
                forall|j: int| 0 <= j < i ==> vcpu_belongs(self@, #[trigger] vcpus@[j], j),
                states@ == states_of(vcpus@).take(i as int),
            decreases vcpus@.len() - i,
        {
            if vcpus[i].index() != self.vcpu_ids[i] || vcpus[i].arch() != self.hv.arch {
                assert(!vcpu_belongs(self@, vcpus@[i as int], i as int));
                return Err(HypervisorVmError::VcpuSetMismatch);
            }
            states.push(vcpus[i].get_state());
            i = i + 1;
            proof {
                assert(states@ =~= states_of(vcpus@).take(i as int));
            }
        }
        if devices.len() != self.devices.len() {
            return Err(HypervisorVmError::DeviceSetMismatch);
        }
        let mut dstates: Vec<DeviceState> = Vec::new();
        let mut d: usize = 0;
        while d < devices.len()
            invariant
                d <= devices@.len(),
                self@ == old(self)@,
                old(self)@.wf(),
                old(self)@.state == VmState::Running || old(self)@.state == VmState::Paused,
                vcpus@.len() == self.vcpu_ids@.len(),
                forall|j: int| 0 <= j < vcpus@.len() ==> vcpu_belongs(self@, #[trigger] vcpus@[j], j),
                devices@.len() == self.devices@.len(),
                forall|j: int| 0 <= j < d ==> device_belongs(self@, #[trigger] devices@[j], j),
                device_states_match(devices@.take(d as int), dstates@),
            decreases devices@.len() - d,
        {
            if devices[d].handle() != d || devices[d].kind() != self.devices[d] {
                assert(!device_belongs(self@, devices@[d as int], d as int));
                return Err(HypervisorVmError::DeviceSetMismatch);
            }
            dstates.push(devices[d].get_state());
            d = d + 1;
            proof {
                assert forall|j: int| 0 <= j < d implies (#[trigger] dstates@[j]).kind
                    == devices@.take(d as int)[j]@.kind && attr_map(dstates@[j].attrs@)
                    == devices@.take(d as int)[j]@.attrs && attrs_in_groups(
                    dstates@[j].kind,
                    dstates@[j].attrs@,
                ) by {
                    assert(devices@.take(d as int)[j] == devices@[j]);
                    if j < d - 1 {
                        assert(devices@.take(d - 1)[j] == devices@[j]);
                    }
                }
            }
        }
        proof {
            assert(devices@.take(d as int) =~= devices@);
        }
        let mut k: usize = 0;
        while k < vcpus.len()
            invariant
                k <= vcpus@.len(),
                self@ == old(self)@,
                old(self)@.wf(),
                old(self)@.state == VmState::Running || old(self)@.state == VmState::Paused,
                vcpus@.len() == self.vcpu_ids@.len(),
                forall|j: int| 0 <= j < vcpus@.len() ==> vcpu_belongs(self@, #[trigger] vcpus@[j], j),
                devices@.len() == self.devices@.len(),
                forall|j: int| 0 <= j < devices@.len() ==> device_belongs(self@, #[trigger] devices@[j], j),
                forall|j: int| 0 <= j < k ==> (#[trigger] vcpus@[j])@.run_state != RunState::Running,
            decreases vcpus@.len() - k,
        {
            if vcpus[k].run_state() == RunState::Running {
                assert(vcpus@[k as int]@.run_state == RunState::Running);
                return Err(HypervisorVmError::VcpuRunning);
            }
            k = k + 1;
        }
        proof {
            assert(states_of(vcpus@).take(vcpus@.len() as int) =~= states_of(vcpus@));
        }
        let snap = VmSnapshot {
            backend: self.hv.backend,
            arch: self.hv.arch,
            regions: copy_vec(&self.regions),
            routing: copy_vec(&self.routing),
            vcpus: states,
            ioevents: copy_vec(&self.ioevents),
            devices: dstates,
        };
        self.state = VmState::Saved;
        Ok(snap)
    }

    /// Brings a snapshot back into a freshly created VM on the same backend
    /// and architecture, and returns its vCPUs, idle, and its devices with
    /// their attributes. A snapshot of another
    /// backend or architecture, or one whose contents break the rules of a
    /// VM, is refused and nothing changes.
    pub fn restore(&mut self, snap: &VmSnapshot) -> (r: Result<
        (Vec<Vcpu>, Vec<Device>),
        HypervisorVmError,
    >)
        requires
            old(self)@.wf(),
        ensures
            final(self)@.wf(),
            match restore_outcome(
                old(self)@,
                snap.backend,
                snap.arch,
                snap.regions@,
                snap.routing@,
                snap.vcpus@,
                snap.ioevents@,
                snap.devices@,
            ) {
                Ok(v) => {
                    &&& r is Ok
                    &&& final(self)@ == v
                    &&& r->Ok_0.0@.len() == snap.vcpus@.len()
                    &&& r->Ok_0.1@.len() == snap.devices@.len()
                    &&& forall|i: int|
                        0 <= i < snap.devices@.len() ==> (#[trigger] r->Ok_0.1@[i])@ == (DeviceView {
                            kind: snap.devices@[i].kind,
                            handle: i as usize,
                            attrs: attr_map(snap.devices@[i].attrs@),
                        })
                    &&& forall|i: int|
                        0 <= i < snap.vcpus@.len() ==> (#[trigger] r->Ok_0.0@[i])@ == (VcpuView {
                            index: snap.vcpus@[i].index,
                            arch: old(self)@.hv.arch,
                            regs: snap.vcpus@[i].regs,
                            run_state: RunState::Idle,
                        })
                },
                Err(e) => r == Err::<(Vec<Vcpu>, Vec<Device>), HypervisorVmError>(e) && final(self)@ == old(
                    self,
                )@,
            },
    {
        if snap.backend != self.hv.backend || snap.arch != self.hv.arch {
            return Err(HypervisorVmError::StateMismatch);
        }
        if self.state == VmState::Destroyed {
            return Err(HypervisorVmError::Destroyed);
        }
        if self.state != VmState::Created || self.regions.len() != 0 || self.routing.len() != 0
            || self.vcpu_ids.len() != 0 || self.devices.len() != 0 || self.ioevents.len() != 0 {
            return Err(HypervisorVmError::InvalidTransition);
        }
        let mut next = self.hv.create_vm();
        let mut i: usize = 0;
        while i < snap.regions.len()
            invariant
                i <= snap.regions@.len(),
                self@ == old(self)@,
                old(self)@.wf(),
                old(self)@.is_fresh(),
                snap.backend == old(self)@.hv.backend,
                snap.arch == old(self)@.hv.arch,
                next@.wf(),
                next@.hv == self@.hv,
                next@.state == VmState::Created,
                next@.routing.len() == 0,
                next@.vcpu_ids.len() == 0,
                next@.devices.len() == 0,
                next@.ioevents.len() == 0,
                next@.regions == snap.regions@.take(i as int),
            decreases snap.regions@.len() - i,
        {
            match next.set_user_memory_region(snap.regions[i]) {
                Ok(()) => {},
                Err(_) => {
                    proof {
                        lemma_refused_region_breaks_set(snap.regions@, i as int);
                    }
                    return Err(HypervisorVmError::InvalidSnapshot);
                },
            }
            i = i + 1;
            proof {
                assert(next@.regions =~= snap.regions@.take(i as int));
            }
        }
        proof {
            assert(snap.regions@.take(snap.regions@.len() as int) =~= snap.regions@);
        }
        match next.set_irq_routing(&snap.routing) {
            Ok(()) => {},
            Err(_) => {
                return Err(HypervisorVmError::InvalidSnapshot);
            },
        }
        let arch = self.hv.arch;
        let mut out: Vec<Vcpu> = Vec::new();
        let mut k: usize = 0;
        while k < snap.vcpus.len()
            invariant
                k <= snap.vcpus@.len(),
                self@ == old(self)@,
                old(self)@.wf(),
                old(self)@.is_fresh(),
                snap.backend == old(self)@.hv.backend,
                snap.arch == old(self)@.hv.arch,
                next@.wf(),
                next@.hv == self@.hv,
                arch == self@.hv.arch,
                next@.state == VmState::Created,
                next@.regions == snap.regions@,
                next@.routing == snap.routing@,
                next@.devices.len() == 0,
                next@.ioevents.len() == 0,
                next@.vcpu_ids == state_indices(snap.vcpus@).take(k as int),
                out@.len() == k,
                forall|j: int| 0 <= j < k ==> (#[trigger] snap.vcpus@[j]).regs.spec_arch() == arch,
                forall|j: int|
                    0 <= j < k ==> (#[trigger] out@[j])@ == (VcpuView {
                        index: snap.vcpus@[j].index,
                        arch,
                        regs: snap.vcpus@[j].regs,
                        run_state: RunState::Idle,
                    }),
            decreases snap.vcpus@.len() - k,
        {
            let st = snap.vcpus[k];
            if st.regs.arch() != arch {
                assert(snap.vcpus@[k as int].regs.spec_arch() != self@.hv.arch);
                return Err(HypervisorVmError::InvalidSnapshot);
            }
            let ghost ids = next@.vcpu_ids;
            let mut vcpu = match next.create_vcpu(st.index) {
                Ok(v) => v,
                Err(_) => {
                    proof {
                        lemma_refused_vcpu_breaks_ids(snap.vcpus@, k as int, ids, self@.hv.caps.max_vcpus);
                    }
                    return Err(HypervisorVmError::InvalidSnapshot);
                },
            };
            match vcpu.set_registers(st.regs) {
                Ok(()) => {},
                Err(_) => {
                    return Err(HypervisorVmError::InvalidSnapshot);
                },
            }
            out.push(vcpu);
            k = k + 1;
            proof {
                assert(next@.vcpu_ids =~= state_indices(snap.vcpus@).take(k as int));
            }
        }
        proof {
            assert(state_indices(snap.vcpus@).take(snap.vcpus@.len() as int) =~= state_indices(
                snap.vcpus@,
            ));
        }
        let mut e: usize = 0;
        while e < snap.ioevents.len()
            invariant
                e <= snap.ioevents@.len(),
                self@ == old(self)@,
                old(self)@.wf(),
                old(self)@.is_fresh(),
                snap.backend == old(self)@.hv.backend,
                snap.arch == old(self)@.hv.arch,
                valid_snapshot_parts(old(self)@.hv, snap.regions@, snap.routing@, snap.vcpus@),
                next@.wf(),
                next@.hv == self@.hv,
                next@.state == VmState::Created,
                next@.regions == snap.regions@,
                next@.routing == snap.routing@,
                next@.devices.len() == 0,
                next@.vcpu_ids == state_indices(snap.vcpus@),
                next@.ioevents == snap.ioevents@.take(e as int),
            decreases snap.ioevents@.len() - e,
        {
            let b = snap.ioevents[e];
            match next.register_ioevent(b.addr, b.datamatch, b.fd) {
                Ok(()) => {},
                Err(_) => {
                    proof {
                        lemma_refused_ioevent_breaks_distinct(snap.ioevents@, e as int);
                    }
                    return Err(HypervisorVmError::InvalidSnapshot);
                },
            }
            e = e + 1;
            proof {
                assert(next@.ioevents =~= snap.ioevents@.take(e as int));
            }
        }
        proof {
            assert(snap.ioevents@.take(snap.ioevents@.len() as int) =~= snap.ioevents@);
        }
        let mut devs: Vec<Device> = Vec::new();
        let mut d: usize = 0;
        while d < snap.devices.len()
            invariant
                d <= snap.devices@.len(),
                self@ == old(self)@,
                old(self)@.wf(),
                old(self)@.is_fresh(),
                snap.backend == old(self)@.hv.backend,
                snap.arch == old(self)@.hv.arch,
                valid_snapshot_parts(old(self)@.hv, snap.regions@, snap.routing@, snap.vcpus@),
                distinct_ioevents(snap.ioevents@),
                next@.wf(),
                next@.hv == self@.hv,
                next@.state == VmState::Created,
                next@.regions == snap.regions@,
                next@.routing == snap.routing@,
                next@.vcpu_ids == state_indices(snap.vcpus@),
                next@.ioevents == snap.ioevents@,
                next@.devices == state_kinds(snap.devices@).take(d as int),
                devs@.len() == d,
                forall|j: int|
                    0 <= j < d ==> (#[trigger] devs@[j])@ == (DeviceView {
                        kind: snap.devices@[j].kind,
                        handle: j as usize,
                        attrs: attr_map(snap.devices@[j].attrs@),
                    }),
                forall|j: int|
                    0 <= j < d ==> spec_supports_device(old(self)@.hv.backend, old(self)@.hv.arch, (#[trigger] snap.devices@[j]).kind)
                        && attrs_in_groups(snap.devices@[j].kind, snap.devices@[j].attrs@),
            decreases snap.devices@.len() - d,
        {
            let st = &snap.devices[d];
            let mut dev = match next.create_device(CreateDevice { kind: st.kind, flags: 0 }) {
                Ok(dev) => dev,
                Err(_) => {
                    assert(!spec_supports_device(
                        old(self)@.hv.backend,
                        old(self)@.hv.arch,
                        snap.devices@[d as int].kind,
                    ));
                    assert(!valid_device_states(old(self)@.hv, snap.devices@));
                    return Err(HypervisorVmError::InvalidSnapshot);
                },
            };
            let mut m: usize = 0;
            while m < st.attrs.len()
                invariant
                    m <= st.attrs@.len(),
                    self@ == old(self)@,
                    old(self)@.wf(),
                    old(self)@.is_fresh(),
                    snap.backend == old(self)@.hv.backend,
                    snap.arch == old(self)@.hv.arch,
                    d < snap.devices@.len(),
                    st == &snap.devices@[d as int],
                    dev@.kind == st.kind,
                    dev@.handle == d,
                    dev@.attrs == attr_map(st.attrs@.take(m as int)),
                    attrs_in_groups(st.kind, st.attrs@.take(m as int)),
                decreases st.attrs@.len() - m,
            {
                match dev.set_attr(st.attrs[m]) {
                    Ok(()) => {},
                    Err(_) => {
                        assert(!crate::device::spec_has_group(st.kind, st.attrs@[m as int].group));
                        assert(!attrs_in_groups(st.kind, st.attrs@));
                        assert(!valid_device_states(old(self)@.hv, snap.devices@));
                        return Err(HypervisorVmError::InvalidSnapshot);
                    },
                }
                m = m + 1;
                proof {
                    let t = st.attrs@.take(m as int);
                    assert(t.drop_last() =~= st.attrs@.take(m - 1));
                    assert(attrs_in_groups(st.kind, t)) by {
                        assert forall|j: int| 0 <= j < t.len() implies crate::device::spec_has_group(
                            st.kind,
                            (#[trigger] t[j]).group,
                        ) by {
                            if j < m - 1 {
                                assert(t[j] == st.attrs@.take(m - 1)[j]);
                            }
                        }
                    }
                }
            }
            proof {
                assert(st.attrs@.take(m as int) =~= st.attrs@);
            }
            devs.push(dev);
            d = d + 1;
            proof {
                assert(next@.devices =~= state_kinds(snap.devices@).take(d as int));
            }
        }
        proof {
            assert(state_kinds(snap.devices@).take(d as int) =~= state_kinds(snap.devices@));
        }
        next.state = VmState::Running;
        *self = next;
        Ok((out, devs))
    }
}

/// The `i`-th vCPU handed to save is the `i`-th one the VM created.
pub open spec fn vcpu_belongs(v: VmView, c: Vcpu, i: int) -> bool {
    c@.index == v.vcpu_ids[i] && c@.arch == v.hv.arch
}

/// The states that save records of the vCPUs, in order.
pub open spec fn states_of(vcpus: Seq<Vcpu>) -> Seq<CpuState> {
    vcpus.map_values(|c: Vcpu| CpuState { index: c@.index, regs: c@.regs })
}

/// Why save refuses to run on a VM in state `v` with these vCPUs and
/// devices, if it does.
pub open spec fn save_check(v: VmView, vcpus: Seq<Vcpu>, devices: Seq<Device>) -> Option<
    HypervisorVmError,
> {
    if v.state == VmState::Destroyed {
        Some(HypervisorVmError::Destroyed)
    } else if v.state != VmState::Running && v.state != VmState::Paused {
        Some(HypervisorVmError::InvalidTransition)
    } else if vcpus.len() != v.vcpu_ids.len() || exists|i: int|
        0 <= i < vcpus.len() && !vcpu_belongs(v, #[trigger] vcpus[i], i) {
        Some(HypervisorVmError::VcpuSetMismatch)
    } else if devices.len() != v.devices.len() || exists|i: int|
        0 <= i < devices.len() && !device_belongs(v, #[trigger] devices[i], i) {
        Some(HypervisorVmError::DeviceSetMismatch)
    } else if exists|i: int| 0 <= i < vcpus.len() && (#[trigger] vcpus[i])@.run_state == RunState::Running {
        Some(HypervisorVmError::VcpuRunning)
    } else {
        None
    }
}

/// Restoring a snapshot taken on another backend or architecture fails with
/// a state mismatch, whatever the state of the VM it is restored into.
pub proof fn lemma_restore_mismatch_refused(
    v: VmView,
    backend: BackendKind,
    arch: Arch,
    regions: Seq<UserMemoryRegion>,
    routing: Seq<IrqRoutingEntry>,
    vcpus: Seq<CpuState>,
    ioevents: Seq<IoEventBinding>,
    devices: Seq<DeviceState>,
)
    requires
        backend != v.hv.backend || arch != v.hv.arch,
    ensures
        restore_outcome(v, backend, arch, regions, routing, vcpus, ioevents, devices) == Err::<
            VmView,
            HypervisorVmError,
        >(HypervisorVmError::StateMismatch),
{
}

/// When registering the `i`-th region after the ones before it is refused,
/// the regions are not a valid set.
proof fn lemma_refused_region_breaks_set(rs: Seq<UserMemoryRegion>, i: int)
    requires
        0 <= i < rs.len(),
        region_insert(rs.take(i), rs[i]) is Err,
    ensures
        !valid_region_set(rs),
{
    if valid_region_set(rs) {
        assert(rs[i].well_formed());
        assert forall|j: int| 0 <= j < rs.take(i).len() implies !(#[trigger] rs.take(i)[j]).overlaps(
            rs[i],
        ) by {
            assert(rs.take(i)[j] == rs[j]);
            assert(!rs[j].overlaps(rs[i]));
        }
    }
}

/// When registering the `k`-th binding after the ones before it is refused,
/// the bindings are not distinct.
proof fn lemma_refused_ioevent_breaks_distinct(bs: Seq<IoEventBinding>, k: int)
    requires
        0 <= k < bs.len(),
        exists|j: int|
            0 <= j < bs.take(k).len() && same_trigger(
                #[trigger] bs.take(k)[j],
                bs[k].addr,
                bs[k].datamatch,
            ),
    ensures
        !distinct_ioevents(bs),
{
    let j = choose|j: int|
        0 <= j < bs.take(k).len() && same_trigger(#[trigger] bs.take(k)[j], bs[k].addr, bs[k].datamatch);
    assert(bs.take(k)[j] == bs[j]);
}

/// When creating the vCPU of the `k`-th state after those before it is
/// refused, the states' indices are not valid.
proof fn lemma_refused_vcpu_breaks_ids(vcpus: Seq<CpuState>, k: int, ids: Seq<u32>, max_vcpus: u32)
    requires
        0 <= k < vcpus.len(),
        ids == state_indices(vcpus).take(k),
        vcpus[k].index >= max_vcpus || ids.contains(vcpus[k].index),
    ensures
        !valid_vcpu_ids(state_indices(vcpus), max_vcpus),
{
    let all = state_indices(vcpus);
    assert(all[k] == vcpus[k].index);
    if ids.contains(vcpus[k].index) {
        let j = choose|j: int| 0 <= j < ids.len() && ids[j] == vcpus[k].index;
        assert(all[j] == ids[j]);
        assert(all[j] == all[k]);
    }
}

/// Saving a VM and restoring the snapshot into a freshly created VM of the
/// same hypervisor succeeds and reproduces its memory regions, routing table
/// vCPU indices, device kinds and I/O event bindings, and the snapshot
/// carries each vCPU's registers as they were; the device states that save
/// records pass restore's check. Restoring it into a VM of another backend
/// or architecture fails with a state mismatch.
pub proof fn lemma_save_restore_round_trip(
    v: VmView,
    vcpus: Seq<Vcpu>,
    devices: Seq<Device>,
    device_states: Seq<DeviceState>,
    fresh: VmView,
)
    requires
        devices.len() == v.devices.len(),
        forall|i: int| 0 <= i < devices.len() ==> device_belongs(v, #[trigger] devices[i], i),
        device_states_match(devices, device_states),
        v.wf(),
        vcpus.len() == v.vcpu_ids.len(),
        forall|i: int| 0 <= i < vcpus.len() ==> vcpu_belongs(v, #[trigger] vcpus[i], i),
        forall|i: int| 0 <= i < vcpus.len() ==> (#[trigger] vcpus[i])@.wf(),
        fresh.is_fresh(),
    ensures
        fresh.hv == v.hv ==> restore_outcome(
            fresh,
            v.hv.backend,
            v.hv.arch,
            v.regions,
            v.routing,
            states_of(vcpus),
            v.ioevents,
            device_states,
        ) == Ok::<VmView, HypervisorVmError>(
            VmView {
                hv: v.hv,
                state: VmState::Running,
                regions: v.regions,
                routing: v.routing,
                vcpu_ids: v.vcpu_ids,
                ioevents: v.ioevents,
                devices: v.devices,
                ..fresh
            },
        ),
        states_of(vcpus).len() == vcpus.len(),
        forall|i: int|
            0 <= i < vcpus.len() ==> (#[trigger] states_of(vcpus)[i]).regs == vcpus[i]@.regs
                && states_of(vcpus)[i].index == vcpus[i]@.index,
        (fresh.hv.backend != v.hv.backend || fresh.hv.arch != v.hv.arch) ==> restore_outcome(
            fresh,
            v.hv.backend,
            v.hv.arch,
            v.regions,
            v.routing,
            states_of(vcpus),
            v.ioevents,
            device_states,
        ) == Err::<VmView, HypervisorVmError>(HypervisorVmError::StateMismatch),
{
    let states = states_of(vcpus);
    assert(state_indices(states) =~= v.vcpu_ids) by {
        assert forall|i: int| 0 <= i < v.vcpu_ids.len() implies state_indices(states)[i]
            == v.vcpu_ids[i] by {
            assert(vcpu_belongs(v, vcpus[i], i));
        }
    }
    assert forall|i: int| 0 <= i < states.len() implies (#[trigger] states[i]).regs.spec_arch()
        == v.hv.arch by {
        assert(vcpu_belongs(v, vcpus[i], i));
        assert(vcpus[i]@.wf());
    }
    assert(state_kinds(device_states) =~= v.devices) by {
        assert forall|i: int| 0 <= i < v.devices.len() implies state_kinds(device_states)[i]
            == v.devices[i] by {
            assert(device_belongs(v, devices[i], i));
        }
    }
    assert forall|i: int| 0 <= i < device_states.len() implies spec_supports_device(
        v.hv.backend,
        v.hv.arch,
        (#[trigger] device_states[i]).kind,
    ) && attrs_in_groups(device_states[i].kind, device_states[i].attrs@) by {
        assert(device_belongs(v, devices[i], i));
        assert(device_states[i].kind == v.devices[i]);
    }
}

/// Registering, one after another and in any order, regions that are each
/// page-aligned and within the address space and that pairwise do not
/// overlap succeeds, and the registered set is exactly those regions.
pub proof fn lemma_disjoint_regions_all_register(regions: Seq<UserMemoryRegion>)
    requires
        valid_region_set(regions),
    ensures
        region_insert_all(Seq::empty(), regions) == Ok::<Seq<UserMemoryRegion>, HypervisorVmError>(
            regions,
        ),
        region_insert_all(Seq::empty(), regions)->Ok_0.to_set() == regions.to_set(),
{
    lemma_insert_all_appends(Seq::empty(), regions);
    assert(Seq::<UserMemoryRegion>::empty() + regions =~= regions);
}

/// Registering a region that overlaps a registered one is refused: with an
/// overlap error when the region is itself page-aligned and within the
/// address space, and with the error of its first fault otherwise.
pub proof fn lemma_overlapping_region_refused(
    rs: Seq<UserMemoryRegion>,
    r: UserMemoryRegion,
    i: int,
)
    requires
        0 <= i < rs.len(),
        rs[i].overlaps(r),
    ensures
        region_insert(rs, r) is Err,
        r.well_formed() ==> region_insert(rs, r) == Err::<Seq<UserMemoryRegion>, HypervisorVmError>(
            HypervisorVmError::Overlap,
        ),
{
}

proof fn lemma_insert_all_appends(rs: Seq<UserMemoryRegion>, new: Seq<UserMemoryRegion>)
    requires
        valid_region_set(rs + new),
    ensures
        region_insert_all(rs, new) == Ok::<Seq<UserMemoryRegion>, HypervisorVmError>(rs + new),
    decreases new.len(),
{
    let all = rs + new;
    if new.len() == 0 {
        assert(rs + new =~= rs);
    } else {
        let r = new[0];
        assert(all[rs.len() as int] == r);
        assert(r.well_formed());
        assert forall|i: int| 0 <= i < rs.len() implies !(#[trigger] rs[i]).overlaps(r) by {
            assert(all[i] == rs[i]);
            assert(!all[i].overlaps(all[rs.len() as int]));
        }
        assert(region_insert(rs, r) == Ok::<Seq<UserMemoryRegion>, HypervisorVmError>(
            rs.push(r),
        ));
        assert(rs.push(r) + new.drop_first() =~= all);
        lemma_insert_all_appends(rs.push(r), new.drop_first());
    }
}

/// Installing a routing table is all or nothing: afterwards the table in
/// force is the one asked for when the VM is live and every entry is valid,
/// and otherwise the one that was in force before.
pub proof fn lemma_routing_all_or_nothing(v: VmView, entries: Seq<IrqRoutingEntry>)
    ensures
        v.state != VmState::Destroyed && valid_routing(entries, v.hv.caps.max_gsi)
            ==> routing_after(v, entries) == entries,
        !valid_routing(entries, v.hv.caps.max_gsi) ==> routing_after(v, entries) == v.routing,
{
}

proof fn lemma_remove_keeps_valid(rs: Seq<UserMemoryRegion>, i: int)
    requires
        valid_region_set(rs),
        0 <= i < rs.len(),
    ensures
        valid_region_set(rs.remove(i)),
{
    let out = rs.remove(i);
    assert forall|a: int, b: int| 0 <= a < b < out.len() implies !(#[trigger] out[a]).overlaps(
        #[trigger] out[b],
    ) by {
        let a0 = if a < i { a } else { a + 1 };
        let b0 = if b < i { b } else { b + 1 };
        assert(out[a] == rs[a0]);
        assert(out[b] == rs[b0]);
        assert(!rs[a0].overlaps(rs[b0]));
    }
    assert forall|a: int| 0 <= a < out.len() implies (#[trigger] out[a]).well_formed() by {
        let a0 = if a < i { a } else { a + 1 };
        assert(out[a] == rs[a0]);
    }
}

} // verus!
