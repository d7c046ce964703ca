//! The holder of the published compute device.

use bevy::ecs::resource::Resource;
use cubecl_wgpu::WgpuDevice;
use vstd::prelude::*;
use vstd::std_specs::cmp::PartialEqSpec;

verus! {

/// CubeCL's `WgpuDevice`, the plain enum by which the compute runtime names
/// a device. Its variants are read as they are declared.
#[verifier::external_type_specification]
pub struct ExWgpuDevice(WgpuDevice);

/// The compute device that a handoff registered, as later systems find it
/// among the resources of the main world.
///
/// It is a name for the device, not the device: copies are cheap, compare
/// equal to the holder they were made from and refer to the same native device.
#[derive(Debug, Hash)]
pub struct BurnDevice(pub WgpuDevice);

impl Resource for BurnDevice {

}

/// A copy of `device`, variant by variant.
#[allow(deprecated)]
pub fn duplicate(device: &WgpuDevice) -> (copy: WgpuDevice)
    ensures
        copy == *device,
{
    match device {
        WgpuDevice::DiscreteGpu(index) => WgpuDevice::DiscreteGpu(*index),
        WgpuDevice::IntegratedGpu(index) => WgpuDevice::IntegratedGpu(*index),
        WgpuDevice::VirtualGpu(index) => WgpuDevice::VirtualGpu(*index),
        WgpuDevice::Cpu => WgpuDevice::Cpu,
        WgpuDevice::DefaultDevice => WgpuDevice::DefaultDevice,
        WgpuDevice::BestAvailable => WgpuDevice::BestAvailable,
        WgpuDevice::Existing(id) => WgpuDevice::Existing(*id),
    }
}

/// Whether `a` and `b` name the same device.
#[allow(deprecated)]
pub fn same_device(a: &WgpuDevice, b: &WgpuDevice) -> (same: bool)
    ensures
        same == (*a == *b),
{
    match (a, b) {
        (WgpuDevice::DiscreteGpu(i), WgpuDevice::DiscreteGpu(j)) => *i == *j,
        (WgpuDevice::IntegratedGpu(i), WgpuDevice::IntegratedGpu(j)) => *i == *j,
        (WgpuDevice::VirtualGpu(i), WgpuDevice::VirtualGpu(j)) => *i == *j,
        (WgpuDevice::Cpu, WgpuDevice::Cpu) => true,
        (WgpuDevice::DefaultDevice, WgpuDevice::DefaultDevice) => true,
        (WgpuDevice::BestAvailable, WgpuDevice::BestAvailable) => true,
        (WgpuDevice::Existing(i), WgpuDevice::Existing(j)) => *i == *j,
        _ => false,
    }
}

impl Clone for BurnDevice {
    /// The copy equals the holder it was made from.
    fn clone(&self) -> (copy: Self)
        ensures
            copy == *self,
    {
        BurnDevice(duplicate(&self.0))
    }
}

impl PartialEq for BurnDevice {
    fn eq(&self, other: &Self) -> (same: bool) {
        same_device(&self.0, &other.0)
    }
}

impl Eq for BurnDevice {

}

impl vstd::std_specs::cmp::PartialEqSpecImpl for BurnDevice {
    open spec fn obeys_eq_spec() -> bool {
        true
    }

    open spec fn eq_spec(&self, other: &Self) -> bool {
        *self == *other
    }
}

/// A copy of a holder equals the holder, and equality of holders is an
/// equivalence.
pub proof fn copy_equals_holder(a: BurnDevice, b: BurnDevice, c: BurnDevice)
    ensures
        a.eq_spec(&a),
        a.eq_spec(&b) ==> b.eq_spec(&a),
        a.eq_spec(&b) && b.eq_spec(&c) ==> a.eq_spec(&c),
        a.eq_spec(&b) <==> a.0 == b.0,
{
}

impl BurnDevice {
    /// The device that the holder names.
    pub fn device(&self) -> (device: &WgpuDevice)
        ensures
            *device == self.0,
    {
        &self.0
    }

}

} // verus!
