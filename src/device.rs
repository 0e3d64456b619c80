//! Devices: an attribute surface addressed by (group, index) pairs, and the
//! kinds of device a backend can create.

use crate::hypervisor::{Arch, BackendKind};
use vstd::prelude::*;

verus! {

/// The kinds of device a VM can be asked to create.
#[derive(Clone, Copy, Debug, PartialEq, Eq, Structural)]
pub enum DeviceKind {
    /// A passthrough device bound through VFIO.
    Vfio,
    /// A GICv3 interrupt controller.
    ArmVgicV3,
    /// The interrupt translation service of a GICv3.
    ArmVgicIts,
}

/// What a VM's device factory is asked for: a kind and its flags.
#[derive(Clone, Copy, Debug, PartialEq, Eq)]
pub struct CreateDevice {
    pub kind: DeviceKind,
    pub flags: u32,
}

/// One attribute access: the group and index that address it, and its
/// value.
#[derive(Clone, Copy, Debug, PartialEq, Eq)]
pub struct DeviceAttr {
    pub group: u32,
    pub attr: u64,
    pub addr: u64,
    pub flags: u32,
}

/// A failure of an attribute access; it leaves every attribute as it was.
#[derive(Clone, Copy, Debug, PartialEq, Eq)]
pub enum HypervisorDeviceError {
    /// The device has no attribute group of that number.
    UnsupportedAttribute,
    /// The attribute was never set.
    AttributeNotSet,
}

/// The backend on this architecture can create devices of this kind.
pub open spec fn spec_supports_device(backend: BackendKind, arch: Arch, kind: DeviceKind) -> bool {
    match kind {
        DeviceKind::Vfio => true,
        DeviceKind::ArmVgicV3 | DeviceKind::ArmVgicIts => backend == BackendKind::Kvm && arch
            == Arch::Aarch64,
    }
}

pub fn supports_device(backend: BackendKind, arch: Arch, kind: DeviceKind) -> (r: bool)
    ensures
        r == spec_supports_device(backend, arch, kind),
{
    match kind {
        DeviceKind::Vfio => true,
        DeviceKind::ArmVgicV3 | DeviceKind::ArmVgicIts => backend == BackendKind::Kvm && arch
            == Arch::Aarch64,
    }
}

/// Attribute groups of a VFIO device: its file.
pub const VFIO_GROUP_FILE: u32 = 1;

/// The last attribute group of a GICv3: from addresses to the level
/// information of interrupts and the registers of an ITS.
pub const VGIC_LAST_GROUP: u32 = 8;

/// Attribute groups of an ITS: its address, its control and its registers.
pub const VGIC_GROUP_ADDR: u32 = 0;

pub const VGIC_GROUP_CTRL: u32 = 4;

pub const VGIC_GROUP_ITS_REGS: u32 = 8;

/// A device of `kind` has an attribute group numbered `group`.
pub open spec fn spec_has_group(kind: DeviceKind, group: u32) -> bool {
    match kind {
        DeviceKind::Vfio => group == VFIO_GROUP_FILE,
        DeviceKind::ArmVgicV3 => group <= VGIC_LAST_GROUP,
        DeviceKind::ArmVgicIts => group == VGIC_GROUP_ADDR || group == VGIC_GROUP_CTRL || group
            == VGIC_GROUP_ITS_REGS,
    }
}

/// A device created by a VM.
#[derive(Debug)]
pub struct Device {
    kind: DeviceKind,
    handle: usize,
    values: Vec<DeviceAttr>,
}

/// What save and restore carry of one device: its kind and the attribute
/// accesses that give its attribute values, a later one of a key winning.
#[derive(Clone, Debug, PartialEq, Eq)]
pub struct DeviceState {
    pub kind: DeviceKind,
    pub attrs: Vec<DeviceAttr>,
}

/// Every attribute access of `vs` falls in a group that a device of `kind`
/// has.
pub open spec fn attrs_in_groups(kind: DeviceKind, vs: Seq<DeviceAttr>) -> bool {
    forall|i: int| 0 <= i < vs.len() ==> spec_has_group(kind, (#[trigger] vs[i]).group)
}

/// The abstract state of a device: its identity and the value of each
/// attribute that was set, keyed by (group, index).
pub ghost struct DeviceView {
    pub kind: DeviceKind,
    pub handle: usize,
    pub attrs: Map<(u32, u64), u64>,
}

/// The value of each attribute set in `vs`; a later entry of a key wins.
pub open spec fn attr_map(vs: Seq<DeviceAttr>) -> Map<(u32, u64), u64>
    decreases vs.len(),
{
    if vs.len() == 0 {
        Map::empty()
    } else {
        let last = vs.last();
        attr_map(vs.drop_last()).insert((last.group, last.attr), last.addr)
    }
}

impl View for Device {
    type V = DeviceView;

    closed spec fn view(&self) -> DeviceView {
        DeviceView { kind: self.kind, handle: self.handle, attrs: attr_map(self.values@) }
    }
}

impl Device {
    #[verifier::type_invariant]
    spec fn inv(self) -> bool {
        attrs_in_groups(self.kind, self.values@)
    }

    /// The state that save carries of this device.
    pub fn get_state(&self) -> (r: DeviceState)
        ensures
            r.kind == self@.kind,
            attr_map(r.attrs@) == self@.attrs,
            attrs_in_groups(r.kind, r.attrs@),
    {
        proof {
            use_type_invariant(self);
        }
        let attrs = self.copy_values();
        DeviceState { kind: self.kind, attrs }
    }

    fn copy_values(&self) -> (r: Vec<DeviceAttr>)
        ensures
            r@ == self.values@,
    {
        let mut r: Vec<DeviceAttr> = Vec::new();
        let mut i: usize = 0;
        while i < self.values.len()
            invariant
                i <= self.values@.len(),
                r@ == self.values@.take(i as int),
            decreases self.values@.len() - i,
        {
            r.push(self.values[i]);
            i = i + 1;
            proof {
                assert(r@ =~= self.values@.take(i as int));
            }
        }
        proof {
            assert(self.values@.take(i as int) =~= self.values@);
        }
        r
    }

    pub(crate) fn create(kind: DeviceKind, handle: usize) -> (d: Device)
        ensures
            d@.kind == kind,
            d@.handle == handle,
            d@.attrs == Map::<(u32, u64), u64>::empty(),
    {
        Device { kind, handle, values: Vec::new() }
    }

    pub fn kind(&self) -> (r: DeviceKind)
        ensures
            r == self@.kind,
    {
        self.kind
    }

    pub fn handle(&self) -> (r: usize)
        ensures
            r == self@.handle,
    {
        self.handle
    }

    /// Whether the device has the attribute group that `(group, index)`
    /// falls in.
    pub fn has_attr(&self, group: u32, index: u64) -> (r: bool)
        ensures
            r == spec_has_group(self@.kind, group),
    {
        match self.kind {
            DeviceKind::Vfio => group == VFIO_GROUP_FILE,
            DeviceKind::ArmVgicV3 => group <= VGIC_LAST_GROUP,
            DeviceKind::ArmVgicIts => group == VGIC_GROUP_ADDR || group == VGIC_GROUP_CTRL
                || group == VGIC_GROUP_ITS_REGS,
        }
    }

    /// Sets one attribute; the others keep their values.
    pub fn set_attr(&mut self, attr: DeviceAttr) -> (r: Result<(), HypervisorDeviceError>)
        ensures
            final(self)@.kind == old(self)@.kind,
            final(self)@.handle == old(self)@.handle,
            !spec_has_group(old(self)@.kind, attr.group) ==> r == Err::<(), HypervisorDeviceError>(
                HypervisorDeviceError::UnsupportedAttribute,
            ) && final(self)@ == old(self)@,
            spec_has_group(old(self)@.kind, attr.group) ==> r is Ok && final(self)@.attrs == old(
                self,
            )@.attrs.insert((attr.group, attr.attr), attr.addr),
    {
        if !self.has_attr(attr.group, attr.attr) {
            return Err(HypervisorDeviceError::UnsupportedAttribute);
        }
        proof {
            use_type_invariant(&*self);
        }
        let mut values = self.copy_values();
        let ghost before = values@;
        values.push(attr);
        proof {
            assert(attrs_in_groups(self.kind, values@));
        }
        *self = Device { kind: self.kind, handle: self.handle, values };
        proof {
            assert(self.values@.drop_last() =~= before);
            assert(self.values@ == before.push(attr));
        }
        Ok(())
    }

    /// The value of one attribute.
    pub fn get_attr(&self, group: u32, index: u64) -> (r: Result<u64, HypervisorDeviceError>)
        ensures
            !spec_has_group(self@.kind, group) ==> r == Err::<u64, HypervisorDeviceError>(
                HypervisorDeviceError::UnsupportedAttribute,
            ),
            spec_has_group(self@.kind, group) && !self@.attrs.contains_key((group, index)) ==> r
                == Err::<u64, HypervisorDeviceError>(HypervisorDeviceError::AttributeNotSet),
            spec_has_group(self@.kind, group) && self@.attrs.contains_key((group, index)) ==> r
                == Ok::<u64, HypervisorDeviceError>(self@.attrs[(group, index)]),
    {
        if !self.has_attr(group, index) {
            return Err(HypervisorDeviceError::UnsupportedAttribute);
        }
        let mut i: usize = self.values.len();
        proof {
            assert(self.values@.take(i as int) =~= self.values@);
        }
        while i > 0
            invariant
                i <= self.values@.len(),
                attr_map(self.values@).contains_key((group, index)) == attr_map(
                    self.values@.take(i as int),
                ).contains_key((group, index)),
                attr_map(self.values@).contains_key((group, index)) ==> attr_map(self.values@)[(
                    group,
                    index,
                )] == attr_map(self.values@.take(i as int))[(group, index)],
                spec_has_group(self@.kind, group),
            decreases i,
        {
            let v = self.values[i - 1];
            let ghost prefix = self.values@.take(i as int);
            proof {
                assert(prefix.last() == v);
                assert(prefix.drop_last() =~= self.values@.take(i - 1));
            }
            if v.group == group && v.attr == index {
                return Ok(v.addr);
            }
            i = i - 1;
        }
        proof {
            assert(self.values@.take(0) =~= Seq::<DeviceAttr>::empty());
        }
        Err(HypervisorDeviceError::AttributeNotSet)
    }
}

/// Setting an attribute and reading it back gives the value set, and
/// leaves every other attribute as it was.
pub proof fn lemma_attr_independent(
    d: DeviceView,
    attr: DeviceAttr,
    group: u32,
    index: u64,
)
    requires
        spec_has_group(d.kind, attr.group),
    ensures
        ({
            let after = d.attrs.insert((attr.group, attr.attr), attr.addr);
            &&& after[(attr.group, attr.attr)] == attr.addr
            &&& (group, index) != (attr.group, attr.attr) ==> (after.contains_key((group, index))
                == d.attrs.contains_key((group, index)) && after[(group, index)] == d.attrs[(
                group,
                index,
            )])
        }),
{
}

} // verus!
