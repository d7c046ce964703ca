//! Reads the GPU context out of an initialised renderer.

use crate::context::{adapt, GpuHandles};
use crate::host::{
    device_handle, find_adapter, find_backend, find_device, find_instance, find_queue,
    held_adapter, held_device, held_instance, held_queue, held_resources, host_render_app,
    recorded_backend, render_sub_app,
};
use crate::resource::{first_missing, handoff_obstacle, ResourceKind};
use crate::unwrap::{unwrap_adapter, unwrap_instance, unwrap_queue};
use bevy::app::{App, SubApp};
use cubecl_wgpu::WgpuSetup;
use vstd::prelude::*;

verus! {

/// Why a handoff could not start.
#[derive(Clone, Copy, Debug, PartialEq, Eq, Hash, Structural)]
pub enum HandoffError {
    /// The renderer has not set this resource up yet: the handoff ran before
    /// the renderer's own GPU setup was complete. Trying again without
    /// changing the order fails the same way.
    MissingResource(ResourceKind),
}

impl HandoffError {
    /// The resource that the error names.
    pub open spec fn missing_kind(self) -> ResourceKind {
        match self {
            HandoffError::MissingResource(kind) => kind,
        }
    }

    /// The resource that the error names.
    pub fn missing(&self) -> (kind: ResourceKind)
        ensures
            kind == self.missing_kind(),
    {
        match self {
            HandoffError::MissingResource(kind) => *kind,
        }
    }
}

/// Whether `handles` are the four handles that the world of `render_app`
/// holds, with the backend that its adapter description records: all from
/// the one renderer, none made up.
pub open spec fn taken_from(handles: GpuHandles, render_app: SubApp) -> bool {
    &&& handles.adapter == held_adapter(render_app)
    &&& handles.device == held_device(render_app)
    &&& handles.instance == held_instance(render_app)
    &&& handles.queue == held_queue(render_app)
    &&& handles.backend == recorded_backend(render_app)
}

/// Whether `setup` is made of the four handles that the world of
/// `render_app` holds and of the backend that its adapter description
/// records.
pub open spec fn built_from(setup: WgpuSetup, render_app: SubApp) -> bool {
    &&& setup.adapter == held_adapter(render_app)
    &&& setup.device == held_device(render_app)
    &&& setup.instance == held_instance(render_app)
    &&& setup.queue == held_queue(render_app)
    &&& setup.backend == recorded_backend(render_app)
}

/// Setups that are built from renderers holding the same four handles agree
/// on the handles, whatever backends the renderers record, and each has the
/// backend that its own renderer records.
pub proof fn same_handles_same_setup(
    first: WgpuSetup,
    first_host: SubApp,
    second: WgpuSetup,
    second_host: SubApp,
)
    requires
        built_from(first, first_host),
        built_from(second, second_host),
        held_adapter(first_host) == held_adapter(second_host),
        held_device(first_host) == held_device(second_host),
        held_instance(first_host) == held_instance(second_host),
        held_queue(first_host) == held_queue(second_host),
    ensures
        first.adapter == second.adapter,
        first.device == second.device,
        first.instance == second.instance,
        first.queue == second.queue,
        first.backend == recorded_backend(first_host),
        second.backend == recorded_backend(second_host),
{
}

/// Looks up the adapter, the device, the instance, the queue and the adapter
/// description in the world of `render_app`, in that order, and unwraps the
/// handles.
///
/// It succeeds exactly when the world holds all five. Otherwise the error
/// names the first one, in that order, that is missing. The handles of the
/// result are those that the world holds, and its backend is the one that
/// the adapter description records.
pub fn extract(render_app: &SubApp) -> (r: Result<GpuHandles, HandoffError>)
    ensures
        r is Ok <==> first_missing(held_resources(*render_app)) is None,
        r matches Err(e) ==> first_missing(held_resources(*render_app)) == Some(e.missing_kind()),
        r matches Ok(handles) ==> taken_from(handles, *render_app),
{
    let adapter = match find_adapter(render_app) {
        Some(wrapper) => unwrap_adapter(wrapper),
        None => {
            return Err(HandoffError::MissingResource(ResourceKind::Adapter));
        },
    };
    let device = match find_device(render_app) {
        Some(render_device) => device_handle(render_device),
        None => {
            return Err(HandoffError::MissingResource(ResourceKind::Device));
        },
    };
    let instance = match find_instance(render_app) {
        Some(wrapper) => unwrap_instance(wrapper),
        None => {
            return Err(HandoffError::MissingResource(ResourceKind::Instance));
        },
    };
    let queue = match find_queue(render_app) {
        Some(wrapper) => unwrap_queue(wrapper),
        None => {
            return Err(HandoffError::MissingResource(ResourceKind::Queue));
        },
    };
    let backend = match find_backend(render_app) {
        Some(backend) => backend,
        None => {
            return Err(HandoffError::MissingResource(ResourceKind::AdapterInfo));
        },
    };
    Ok(GpuHandles { adapter, device, instance, queue, backend })
}

/// Starts the handoff on `app`: finds the render sub-app, extracts the GPU
/// context from it and assembles the setup for device construction.
///
/// It succeeds exactly when nothing stands in the way: the render sub-app
/// exists and holds all five resources. Otherwise the error names the
/// obstacle. The setup is made of the renderer's own four handles and of the
/// backend that its adapter description records.
pub fn begin_handoff(app: &App) -> (r: Result<WgpuSetup, HandoffError>)
    ensures
        r is Ok <==> handoff_obstacle(*app) is None,
        r matches Err(e) ==> handoff_obstacle(*app) == Some(e.missing_kind()),
        r matches Ok(setup) ==> host_render_app(*app) matches Some(render_app) && built_from(
            setup,
            render_app,
        ),
{
    match render_sub_app(app) {
        None => Err(HandoffError::MissingResource(ResourceKind::RenderApp)),
        Some(render_app) => match extract(render_app) {
            Ok(handles) => Ok(adapt(handles)),
            Err(e) => Err(e),
        },
    }
}

} // verus!
