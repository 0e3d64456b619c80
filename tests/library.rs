use hypervisor::cpu::{
    EXIT_FAIL_ENTRY, EXIT_HLT, EXIT_HYPERCALL, EXIT_INTR, EXIT_IO, EXIT_IRQ_WINDOW_OPEN,
    EXIT_MMIO, EXIT_SHUTDOWN, IO_IN, IO_OUT,
};
use hypervisor::hypervisor::{KVM_API_VERSION, MSHV_API_VERSION, USER_MEMORY_REGION_READ};
use hypervisor::{
    new, normalize_exit, reset_registers, vec_with_array_field, vec_with_size_in_bytes, Arch,
    BackendKind, BackendProbe, CpuRegisters, CpuState, CreateDevice, DataMatch, DeviceAttr,
    DeviceKind, DeviceState, HypervisorDeviceError, IoEventAddress, IoEventBinding, HypervisorCpuError, HypervisorError,
    HypervisorVmError, InterruptSourceConfig, IrqRoutingEntry, LegacyIrqSourceConfig,
    MsiIrqSourceConfig, RawExit, RunState, UserMemoryRegion, Vm, VmExit, VmState, X86Registers,
};

fn probe() -> BackendProbe {
    BackendProbe {
        backend: BackendKind::Kvm,
        arch: Arch::X86_64,
        interface_present: true,
        permission_granted: true,
        call_failed: false,
        error_code: None,
        api_version: KVM_API_VERSION,
        max_vcpus: 4,
        max_gsi: 24,
    }
}

fn fresh_vm() -> Vm {
    new(probe()).unwrap().create_vm()
}

fn region(slot: u32, gpa: u64, size: u64) -> UserMemoryRegion {
    UserMemoryRegion {
        slot,
        guest_phys_addr: gpa,
        memory_size: size,
        userspace_addr: 0x7f00_0000_0000 + gpa,
        flags: USER_MEMORY_REGION_READ,
    }
}

fn raw(reason: u32) -> RawExit {
    RawExit {
        reason,
        io_direction: IO_IN,
        io_port: 0,
        size: 0,
        mmio_addr: 0,
        mmio_is_write: false,
        data: Vec::new(),
        hypercall_nr: 0,
        hardware_reason: 0,
    }
}

fn x86_regs(rip: u64, rax: u64) -> CpuRegisters {
    match reset_registers(Arch::X86_64) {
        CpuRegisters::X86_64(r) => CpuRegisters::X86_64(X86Registers { rip, rax, ..r }),
        other => other,
    }
}

#[test]
fn size_in_bytes_rounds_up_to_whole_elements() {
    assert_eq!(vec_with_size_in_bytes::<u32>(10).len(), 3);
    assert_eq!(vec_with_size_in_bytes::<u32>(12).len(), 3);
    assert_eq!(vec_with_size_in_bytes::<u64>(0).len(), 0);
    assert_eq!(vec_with_size_in_bytes::<u8>(7).len(), 7);
    assert!(vec_with_size_in_bytes::<u64>(17).iter().all(|x| *x == 0));
    assert_eq!(vec_with_size_in_bytes::<u64>(20), vec![0u64; 3]);
    assert_eq!(vec_with_size_in_bytes::<u64>(24), vec![0u64; 3]);
}

#[test]
fn array_field_holds_header_and_entries() {
    // an 8-byte header and three 4-byte entries need 20 bytes: three u64s
    let v = vec_with_array_field::<u64, u32>(3);
    assert_eq!(v.len(), 3);
    assert!(v.len() * 8 >= 8 + 3 * 4);
    assert!((v.len() - 1) * 8 < 8 + 3 * 4);
    assert_eq!(v, vec![0u64; 3]);
    assert_eq!(vec_with_array_field::<u64, u32>(0), vec![0u64; 1]);
    assert_eq!(vec_with_array_field::<u32, u64>(2), vec![0u32; 5]);
}

#[test]
fn new_reports_why_a_backend_is_unusable() {
    let absent = BackendProbe { interface_present: false, ..probe() };
    assert_eq!(new(absent).unwrap_err(), HypervisorError::InterfaceUnavailable);
    let failed = BackendProbe { call_failed: true, error_code: Some(25), ..probe() };
    assert_eq!(new(failed).unwrap_err(), HypervisorError::KernelCall { code: Some(25) });
    let denied = BackendProbe { permission_granted: false, ..probe() };
    assert_eq!(new(denied).unwrap_err(), HypervisorError::PermissionDenied);
    let old = BackendProbe { api_version: 11, ..probe() };
    assert_eq!(
        new(old).unwrap_err(),
        HypervisorError::IncompatibleVersion { found: 11, expected: KVM_API_VERSION }
    );
    let mshv = BackendProbe { backend: BackendKind::Mshv, api_version: MSHV_API_VERSION, ..probe() };
    let hv = new(mshv).unwrap();
    assert_eq!(hv.backend, BackendKind::Mshv);
    assert_eq!(hv.capabilities().max_vcpus, 4);
    assert_eq!(hv.capabilities().max_gsi, 24);
}

#[test]
fn disjoint_regions_register_in_any_order() {
    let rs = [region(0, 0x0, 0x1000), region(1, 0x1000, 0x2000), region(2, 0x10_0000, 0x1000)];
    for order in [[0, 1, 2], [2, 1, 0], [1, 2, 0]] {
        let mut vm = fresh_vm();
        for &i in order.iter() {
            assert_eq!(vm.set_user_memory_region(rs[i]), Ok(()));
        }
        let got = vm.user_memory_regions();
        assert_eq!(got.len(), 3);
        for r in rs.iter() {
            assert!(got.contains(r));
        }
    }
}

#[test]
fn overlapping_region_is_refused_and_set_kept() {
    let mut vm = fresh_vm();
    vm.set_user_memory_region(region(0, 0x0, 0x2000)).unwrap();
    let before = vm.user_memory_regions();
    assert_eq!(vm.set_user_memory_region(region(1, 0x1000, 0x1000)), Err(HypervisorVmError::Overlap));
    assert_eq!(vm.user_memory_regions(), before);
    // touching end to start is no overlap
    assert_eq!(vm.set_user_memory_region(region(1, 0x2000, 0x1000)), Ok(()));
}

#[test]
fn misaligned_or_unbounded_region_is_refused() {
    let mut vm = fresh_vm();
    assert_eq!(vm.set_user_memory_region(region(0, 0x800, 0x1000)), Err(HypervisorVmError::Misaligned));
    assert_eq!(vm.set_user_memory_region(region(0, 0x1000, 0x800)), Err(HypervisorVmError::Misaligned));
    assert_eq!(vm.set_user_memory_region(region(0, 0x1000, 0)), Ok(()));
    assert_eq!(
        vm.set_user_memory_region(region(0, 0xffff_ffff_ffff_f000, 0x2000)),
        Err(HypervisorVmError::InvalidRegion)
    );
    assert_eq!(vm.set_user_memory_region(region(0, 0xffff_ffff_ffff_f000, 0x1000)), Ok(()));
    assert_eq!(vm.user_memory_regions().len(), 2);
}

#[test]
fn region_removal_takes_out_the_equal_region() {
    let mut vm = fresh_vm();
    let a = region(0, 0x0, 0x1000);
    let b = region(1, 0x4000, 0x1000);
    vm.set_user_memory_region(a).unwrap();
    vm.set_user_memory_region(b).unwrap();
    assert_eq!(vm.remove_user_memory_region(region(2, 0x8000, 0x1000)), Err(HypervisorVmError::RegionNotFound));
    assert_eq!(vm.remove_user_memory_region(a), Ok(()));
    assert_eq!(vm.user_memory_regions(), vec![b]);
    // the freed range can be registered again
    assert_eq!(vm.set_user_memory_region(region(3, 0x0, 0x2000)), Ok(()));
}

fn legacy(gsi: u32, pin: u32) -> IrqRoutingEntry {
    IrqRoutingEntry {
        gsi,
        source: InterruptSourceConfig::LegacyIrq(LegacyIrqSourceConfig { irqchip: 0, pin }),
    }
}

fn msi(gsi: u32) -> IrqRoutingEntry {
    IrqRoutingEntry {
        gsi,
        source: InterruptSourceConfig::MsiIrq(MsiIrqSourceConfig {
            high_addr: 0,
            low_addr: 0xfee0_0000,
            data: 0x30,
            devid: 0,
        }),
    }
}

#[test]
fn routing_table_is_replaced_whole_or_not_at_all() {
    let mut vm = fresh_vm();
    let t1 = vec![legacy(4, 4), msi(10)];
    assert_eq!(vm.set_irq_routing(&t1), Ok(()));
    assert_eq!(vm.irq_routing(), t1);
    let bad = vec![msi(5), legacy(24, 0), msi(30)];
    assert_eq!(vm.set_irq_routing(&bad), Err(HypervisorVmError::InvalidRoutingEntry { index: 1 }));
    assert_eq!(vm.irq_routing(), t1);
    let t2 = vec![msi(23)];
    assert_eq!(vm.set_irq_routing(&t2), Ok(()));
    assert_eq!(vm.irq_routing(), t2);
    assert_eq!(vm.set_irq_routing(&Vec::new()), Ok(()));
    assert!(vm.irq_routing().is_empty());
}

#[test]
fn vcpu_index_at_capacity_is_refused() {
    let mut vm = fresh_vm();
    let max = vm.hypervisor().capabilities().max_vcpus;
    assert_eq!(vm.create_vcpu(max).unwrap_err(), HypervisorVmError::VcpuOverCapacity);
    let v = vm.create_vcpu(max - 1).unwrap();
    assert_eq!(v.index(), max - 1);
    assert_eq!(vm.create_vcpu(max - 1).unwrap_err(), HypervisorVmError::DuplicateVcpu);
}

#[test]
fn new_vcpu_is_idle_in_reset_state() {
    let mut vm = fresh_vm();
    let v = vm.create_vcpu(0).unwrap();
    assert_eq!(v.run_state(), RunState::Idle);
    match v.get_registers() {
        CpuRegisters::X86_64(r) => {
            assert_eq!(r.rflags, 2);
            assert_eq!(r.rip, 0);
        }
        CpuRegisters::Aarch64(_) => panic!("wrong architecture"),
    }
}

#[test]
fn registers_round_trip() {
    let mut vm = fresh_vm();
    let mut v = vm.create_vcpu(0).unwrap();
    let s = x86_regs(0x1000, 0xdead_beef);
    assert_eq!(v.set_registers(s), Ok(()));
    assert_eq!(v.get_registers(), s);
    let arm = reset_registers(Arch::Aarch64);
    assert_eq!(v.set_registers(arm), Err(HypervisorCpuError::ArchMismatch));
    assert_eq!(v.get_registers(), s);
}

#[test]
fn aarch64_reset_state() {
    match reset_registers(Arch::Aarch64) {
        CpuRegisters::Aarch64(r) => {
            assert_eq!(r.pstate, 0x3c5);
            assert_eq!(r.pc, 0);
            assert_eq!(r.x0, 0);
        }
        CpuRegisters::X86_64(_) => panic!("wrong architecture"),
    }
}

#[test]
fn one_run_at_a_time() {
    let mut vm = fresh_vm();
    let mut v = vm.create_vcpu(0).unwrap();
    let after = x86_regs(0x1001, 0x2a);
    assert_eq!(v.complete_run(raw(EXIT_HLT), after), Err(HypervisorCpuError::NotRunning));
    assert_eq!(v.begin_run(), Ok(()));
    assert_eq!(v.begin_run(), Err(HypervisorCpuError::VcpuRunning));
    assert_eq!(v.set_registers(x86_regs(0, 0)), Err(HypervisorCpuError::VcpuRunning));
    let arm = reset_registers(Arch::Aarch64);
    assert_eq!(v.complete_run(raw(EXIT_HLT), arm), Err(HypervisorCpuError::ArchMismatch));
    assert_eq!(v.run_state(), RunState::Running);
    assert_eq!(v.complete_run(raw(EXIT_HLT), after), Ok(VmExit::Hlt));
    assert_eq!(v.run_state(), RunState::Exited);
    assert_eq!(v.begin_run(), Ok(()));
    assert_eq!(v.complete_run(raw(EXIT_INTR), after), Ok(VmExit::Interrupted));
}

#[test]
fn registers_after_a_run_are_those_the_guest_left() {
    let mut vm = fresh_vm();
    vm.set_user_memory_region(region(0, 0x0, 0x1000)).unwrap();
    let mut v = vm.create_vcpu(0).unwrap();
    v.set_registers(x86_regs(0x0, 0)).unwrap();
    v.begin_run().unwrap();
    // the guest ran `mov al, 0x2a; hlt` from address 0
    let exit = v.complete_run(raw(EXIT_HLT), x86_regs(0x3, 0x2a)).unwrap();
    assert_eq!(exit, VmExit::Hlt);
    assert_eq!(v.get_registers(), x86_regs(0x3, 0x2a));
}

#[test]
fn exits_are_normalized_with_their_payload() {
    let io_in = RawExit { reason: EXIT_IO, io_direction: IO_IN, io_port: 0x3f8, size: 1, ..raw(0) };
    assert_eq!(normalize_exit(io_in), VmExit::IoIn { port: 0x3f8, size: 1 });
    let io_out = RawExit { reason: EXIT_IO, io_direction: IO_OUT, io_port: 0x3f8, data: vec![b'A'], ..raw(0) };
    assert_eq!(normalize_exit(io_out), VmExit::IoOut { port: 0x3f8, data: vec![b'A'] });
    let rd = RawExit { reason: EXIT_MMIO, mmio_addr: 0xd000_0000, size: 4, ..raw(0) };
    assert_eq!(normalize_exit(rd), VmExit::MmioRead { addr: 0xd000_0000, size: 4 });
    let wr = RawExit { reason: EXIT_MMIO, mmio_addr: 0xd000_0000, mmio_is_write: true, data: vec![1, 2], ..raw(0) };
    assert_eq!(normalize_exit(wr), VmExit::MmioWrite { addr: 0xd000_0000, data: vec![1, 2] });
    assert_eq!(normalize_exit(raw(EXIT_SHUTDOWN)), VmExit::Shutdown);
    assert_eq!(normalize_exit(raw(EXIT_IRQ_WINDOW_OPEN)), VmExit::IrqWindowOpen);
    let hc = RawExit { hypercall_nr: 9, ..raw(EXIT_HYPERCALL) };
    assert_eq!(normalize_exit(hc), VmExit::Hypercall { nr: 9 });
    let fe = RawExit { hardware_reason: 0x80000021, ..raw(EXIT_FAIL_ENTRY) };
    assert_eq!(normalize_exit(fe), VmExit::FailEntry { hardware_reason: 0x80000021 });
    assert_eq!(normalize_exit(raw(77)), VmExit::Unknown { code: 77 });
    let odd_io = RawExit { reason: EXIT_IO, io_direction: 5, ..raw(0) };
    assert_eq!(normalize_exit(odd_io), VmExit::Unknown { code: EXIT_IO });
}

#[test]
fn lifecycle_transitions() {
    let mut vm = fresh_vm();
    assert_eq!(vm.state(), VmState::Created);
    assert_eq!(vm.pause(), Err(HypervisorVmError::InvalidTransition));
    assert_eq!(vm.resume(), Ok(()));
    assert_eq!(vm.resume(), Err(HypervisorVmError::InvalidTransition));
    assert_eq!(vm.pause(), Ok(()));
    assert_eq!(vm.state(), VmState::Paused);
    assert_eq!(vm.resume(), Ok(()));
    assert_eq!(vm.destroy(), Ok(()));
    assert_eq!(vm.state(), VmState::Destroyed);
    assert_eq!(vm.destroy(), Err(HypervisorVmError::Destroyed));
    assert_eq!(vm.set_user_memory_region(region(0, 0, 0x1000)), Err(HypervisorVmError::Destroyed));
    assert_eq!(vm.set_irq_routing(&vec![msi(1)]), Err(HypervisorVmError::Destroyed));
    assert_eq!(vm.create_vcpu(0).unwrap_err(), HypervisorVmError::Destroyed);
    assert_eq!(vm.resume(), Err(HypervisorVmError::Destroyed));
}

fn populated_vm() -> (Vm, Vec<hypervisor::Vcpu>, Vec<hypervisor::Device>) {
    let mut vm = fresh_vm();
    vm.set_user_memory_region(region(0, 0x0, 0x1000)).unwrap();
    vm.set_user_memory_region(region(1, 0x10000, 0x4000)).unwrap();
    vm.set_irq_routing(&vec![legacy(4, 4), msi(9)]).unwrap();
    let mut v1 = vm.create_vcpu(1).unwrap();
    let mut v0 = vm.create_vcpu(0).unwrap();
    v1.set_registers(x86_regs(0x2000, 1)).unwrap();
    v0.set_registers(x86_regs(0x1000, 7)).unwrap();
    vm.register_ioevent(IoEventAddress::Pio(0x3f8), Some(DataMatch::DataMatch32(1)), 11).unwrap();
    let mut d = vm.create_device(CreateDevice { kind: DeviceKind::Vfio, flags: 0 }).unwrap();
    d.set_attr(DeviceAttr { group: 1, attr: 1, addr: 0x55, flags: 0 }).unwrap();
    d.set_attr(DeviceAttr { group: 1, attr: 1, addr: 0x66, flags: 0 }).unwrap();
    vm.resume().unwrap();
    (vm, vec![v1, v0], vec![d])
}

#[test]
fn save_then_restore_reproduces_the_vm() {
    let (mut vm, vcpus, devices) = populated_vm();
    let snap = vm.save(&vcpus, &devices).unwrap();
    assert_eq!(vm.state(), VmState::Saved);
    let mut other = fresh_vm();
    let (restored, restored_devices) = other.restore(&snap).unwrap();
    assert_eq!(other.ioevents(), vm.ioevents());
    assert_eq!(restored_devices.len(), 1);
    assert_eq!(restored_devices[0].kind(), DeviceKind::Vfio);
    assert_eq!(restored_devices[0].handle(), 0);
    assert_eq!(restored_devices[0].get_attr(1, 1), Ok(0x66));
    assert_eq!(restored_devices[0].get_attr(1, 2), Err(HypervisorDeviceError::AttributeNotSet));
    assert_eq!(other.state(), VmState::Running);
    assert_eq!(other.user_memory_regions(), vm.user_memory_regions());
    assert_eq!(other.irq_routing(), vm.irq_routing());
    assert_eq!(restored.len(), 2);
    for (a, b) in restored.iter().zip(vcpus.iter()) {
        assert_eq!(a.index(), b.index());
        assert_eq!(a.get_registers(), b.get_registers());
        assert_eq!(a.run_state(), RunState::Idle);
    }
    assert_eq!(other.create_vcpu(0).unwrap_err(), HypervisorVmError::DuplicateVcpu);
}

#[test]
fn restore_across_backends_is_refused() {
    let (mut vm, vcpus, devices) = populated_vm();
    let snap = vm.save(&vcpus, &devices).unwrap();
    let mshv = BackendProbe { backend: BackendKind::Mshv, api_version: MSHV_API_VERSION, ..probe() };
    let mut other = new(mshv).unwrap().create_vm();
    assert_eq!(other.restore(&snap).unwrap_err(), HypervisorVmError::StateMismatch);
    assert_eq!(other.state(), VmState::Created);
    assert!(other.user_memory_regions().is_empty());
    assert!(other.irq_routing().is_empty());
    let arm = BackendProbe { arch: Arch::Aarch64, ..probe() };
    let mut other = new(arm).unwrap().create_vm();
    assert_eq!(other.restore(&snap).unwrap_err(), HypervisorVmError::StateMismatch);
}

#[test]
fn restore_refuses_a_broken_snapshot_or_a_used_vm() {
    let (mut vm, vcpus, devices) = populated_vm();
    let snap = vm.save(&vcpus, &devices).unwrap();
    let mut overlapping = snap.clone();
    overlapping.regions.push(region(5, 0x0, 0x1000));
    let mut other = fresh_vm();
    assert_eq!(other.restore(&overlapping).unwrap_err(), HypervisorVmError::InvalidSnapshot);
    assert!(other.user_memory_regions().is_empty());
    let mut dup = snap.clone();
    dup.vcpus.push(CpuState { index: 0, regs: x86_regs(0, 0) });
    assert_eq!(other.restore(&dup).unwrap_err(), HypervisorVmError::InvalidSnapshot);
    let mut bad_route = snap.clone();
    bad_route.routing.push(msi(100));
    assert_eq!(other.restore(&bad_route).unwrap_err(), HypervisorVmError::InvalidSnapshot);
    let mut twice = snap.clone();
    twice.ioevents.push(twice.ioevents[0]);
    assert_eq!(other.restore(&twice).unwrap_err(), HypervisorVmError::InvalidSnapshot);
    let mut gic = snap.clone();
    gic.devices.push(DeviceState { kind: DeviceKind::ArmVgicV3, attrs: Vec::new() });
    assert_eq!(other.restore(&gic).unwrap_err(), HypervisorVmError::InvalidSnapshot);
    let mut bad_attr = snap.clone();
    bad_attr.devices[0].attrs.push(DeviceAttr { group: 2, attr: 0, addr: 0, flags: 0 });
    assert_eq!(other.restore(&bad_attr).unwrap_err(), HypervisorVmError::InvalidSnapshot);
    assert!(other.ioevents().is_empty());
    assert_eq!(other.state(), VmState::Created);
    other.set_user_memory_region(region(0, 0x0, 0x1000)).unwrap();
    assert_eq!(other.restore(&snap).unwrap_err(), HypervisorVmError::InvalidTransition);
}

#[test]
fn save_checks_state_and_vcpus() {
    let (mut vm, mut vcpus, devices) = populated_vm();
    let swapped = vec![];
    assert_eq!(vm.save(&swapped, &devices).unwrap_err(), HypervisorVmError::VcpuSetMismatch);
    assert_eq!(vm.save(&vcpus, &Vec::new()).unwrap_err(), HypervisorVmError::DeviceSetMismatch);
    vcpus[0].begin_run().unwrap();
    assert_eq!(vm.save(&vcpus, &devices).unwrap_err(), HypervisorVmError::VcpuRunning);
    vcpus[0].complete_run(raw(EXIT_HLT), x86_regs(0x2000, 1)).unwrap();
    vcpus.swap(0, 1);
    assert_eq!(vm.save(&vcpus, &devices).unwrap_err(), HypervisorVmError::VcpuSetMismatch);
    vcpus.swap(0, 1);
    let mut created = fresh_vm();
    assert_eq!(created.save(&Vec::new(), &Vec::new()).unwrap_err(), HypervisorVmError::InvalidTransition);
    vm.pause().unwrap();
    assert!(vm.save(&vcpus, &devices).is_ok());
}

#[test]
fn device_kinds_depend_on_backend_and_arch() {
    let mut vm = fresh_vm();
    let gic = CreateDevice { kind: DeviceKind::ArmVgicV3, flags: 0 };
    assert_eq!(vm.create_device(gic).unwrap_err(), HypervisorVmError::UnsupportedDevice);
    let vfio = vm.create_device(CreateDevice { kind: DeviceKind::Vfio, flags: 0 }).unwrap();
    assert_eq!(vfio.kind(), DeviceKind::Vfio);
    assert_eq!(vfio.handle(), 0);
    let arm = BackendProbe { arch: Arch::Aarch64, ..probe() };
    let mut arm_vm = new(arm).unwrap().create_vm();
    let d = arm_vm.create_device(gic).unwrap();
    assert_eq!(d.kind(), DeviceKind::ArmVgicV3);
    assert_eq!(arm_vm.create_device(CreateDevice { kind: DeviceKind::ArmVgicIts, flags: 0 }).unwrap().handle(), 1);
    let mshv = BackendProbe { backend: BackendKind::Mshv, arch: Arch::Aarch64, api_version: MSHV_API_VERSION, ..probe() };
    let mut mshv_vm = new(mshv).unwrap().create_vm();
    assert_eq!(mshv_vm.create_device(gic).unwrap_err(), HypervisorVmError::UnsupportedDevice);
}

#[test]
fn device_attributes_are_independent() {
    let arm = BackendProbe { arch: Arch::Aarch64, ..probe() };
    let mut vm = new(arm).unwrap().create_vm();
    let mut d = vm.create_device(CreateDevice { kind: DeviceKind::ArmVgicIts, flags: 0 }).unwrap();
    assert!(d.has_attr(0, 0));
    assert!(!d.has_attr(1, 0));
    assert_eq!(d.get_attr(0, 0), Err(HypervisorDeviceError::AttributeNotSet));
    assert_eq!(d.set_attr(DeviceAttr { group: 0, attr: 0, addr: 0x8080000, flags: 0 }), Ok(()));
    assert_eq!(d.set_attr(DeviceAttr { group: 4, attr: 0, addr: 1, flags: 0 }), Ok(()));
    assert_eq!(d.set_attr(DeviceAttr { group: 1, attr: 0, addr: 1, flags: 0 }), Err(HypervisorDeviceError::UnsupportedAttribute));
    assert_eq!(d.get_attr(0, 0), Ok(0x8080000));
    assert_eq!(d.get_attr(4, 0), Ok(1));
    assert_eq!(d.set_attr(DeviceAttr { group: 0, attr: 0, addr: 0x9000000, flags: 0 }), Ok(()));
    assert_eq!(d.get_attr(0, 0), Ok(0x9000000));
    assert_eq!(d.get_attr(4, 0), Ok(1));
    assert_eq!(d.get_attr(1, 0), Err(HypervisorDeviceError::UnsupportedAttribute));
}

#[test]
fn ioevents_bind_once_per_address_and_data() {
    let mut vm = fresh_vm();
    let a = IoEventAddress::Mmio(0xd000_0000);
    assert_eq!(vm.register_ioevent(a, None, 5), Ok(()));
    assert_eq!(vm.register_ioevent(a, None, 6), Err(HypervisorVmError::IoEventExists));
    assert_eq!(vm.register_ioevent(a, Some(DataMatch::DataMatch32(1)), 7), Ok(()));
    assert_eq!(vm.register_ioevent(IoEventAddress::Pio(0xd000_0000), None, 8), Ok(()));
    assert_eq!(vm.ioevents().len(), 3);
    assert_eq!(vm.unregister_ioevent(a, Some(DataMatch::DataMatch64(1))), Err(HypervisorVmError::IoEventNotFound));
    assert_eq!(vm.unregister_ioevent(a, None), Ok(()));
    let left = vm.ioevents();
    assert_eq!(left.len(), 2);
    assert_eq!(left[0], IoEventBinding { addr: a, datamatch: Some(DataMatch::DataMatch32(1)), fd: 7 });
    assert_eq!(vm.register_ioevent(a, None, 9), Ok(()));
}


#[test]
fn zero_size_regions_register_unless_inside_another() {
    let mut vm = fresh_vm();
    assert_eq!(vm.set_user_memory_region(region(0, 0x0, 0x2000)), Ok(()));
    assert_eq!(vm.set_user_memory_region(region(1, 0x1000, 0)), Err(HypervisorVmError::Overlap));
    assert_eq!(vm.set_user_memory_region(region(1, 0x2000, 0)), Ok(()));
    assert_eq!(vm.set_user_memory_region(region(1, 0x2000, 0)), Ok(()));
    assert_eq!(vm.user_memory_regions().len(), 3);
    assert_eq!(vm.remove_user_memory_region(region(1, 0x2000, 0)), Ok(()));
    assert_eq!(vm.user_memory_regions(), vec![region(0, 0x0, 0x2000), region(1, 0x2000, 0)]);
}

#[test]
fn mismatched_snapshot_is_refused_whatever_the_vm_state() {
    let (mut vm, vcpus, devices) = populated_vm();
    let snap = vm.save(&vcpus, &devices).unwrap();
    let arm = BackendProbe { arch: Arch::Aarch64, ..probe() };
    let mut used = new(arm).unwrap().create_vm();
    used.set_user_memory_region(region(0, 0x0, 0x1000)).unwrap();
    used.resume().unwrap();
    assert_eq!(used.restore(&snap).unwrap_err(), HypervisorVmError::StateMismatch);
    used.destroy().unwrap();
    assert_eq!(used.restore(&snap).unwrap_err(), HypervisorVmError::StateMismatch);
    assert_eq!(used.user_memory_regions().len(), 1);
}
