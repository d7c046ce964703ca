//! The GPU context on its way from the renderer to the compute runtime.

use cubecl_wgpu::WgpuSetup;
use vstd::prelude::*;

verus! {

/// CubeCL's `WgpuSetup`: the four handles and the backend tag that a compute
/// device is built on. Its fields are public and are read as they are
/// declared.
#[verifier::external_type_specification]
pub struct ExWgpuSetup(WgpuSetup);

/// What the extractor found in the renderer: the four GPU handles, unwrapped,
/// and the backend that produced them.
pub struct GpuHandles {
    pub adapter: wgpu::Adapter,
    pub device: wgpu::Device,
    pub instance: wgpu::Instance,
    pub queue: wgpu::Queue,
    pub backend: wgpu::Backend,
}

/// Puts the handles and the backend tag into the shape that device
/// construction takes. Each field of the setup is the field of that name in
/// `handles`; nothing is checked.
pub fn adapt(handles: GpuHandles) -> (setup: WgpuSetup)
    ensures
        setup.adapter == handles.adapter,
        setup.device == handles.device,
        setup.instance == handles.instance,
        setup.queue == handles.queue,
        setup.backend == handles.backend,
{
    WgpuSetup {
        adapter: handles.adapter,
        device: handles.device,
        instance: handles.instance,
        queue: handles.queue,
        backend: handles.backend,
    }
}

} // verus!
