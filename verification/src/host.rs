//! The renderer as the handoff sees it: bevy's app and render sub-app, the
//! wgpu handles they hold, and the lookups that fetch them.

use crate::resource::ResourceKind;
use bevy::app::{App, SubApp};
use bevy::render::renderer::{
    RenderAdapter, RenderAdapterInfo, RenderDevice, RenderInstance, RenderQueue, WgpuWrapper,
};
use bevy::render::RenderApp;
use vstd::prelude::*;

verus! {

/// bevy's `App`, carried through as an opaque value.
#[verifier::external_type_specification]
#[verifier::external_body]
pub struct ExApp(App);

/// bevy's `SubApp`, carried through as an opaque value.
#[verifier::external_type_specification]
#[verifier::external_body]
pub struct ExSubApp(SubApp);

/// bevy's `WgpuWrapper`, which makes a wgpu value `Send` and `Sync`.
#[verifier::external_type_specification]
#[verifier::external_body]
#[verifier::reject_recursive_types(T)]
pub struct ExWgpuWrapper<T>(WgpuWrapper<T>);

/// bevy's `RenderDevice` resource.
#[verifier::external_type_specification]
#[verifier::external_body]
pub struct ExRenderDevice(RenderDevice);

/// A wgpu instance handle.
#[verifier::external_type_specification]
#[verifier::external_body]
pub struct ExInstance(wgpu::Instance);

/// A wgpu adapter handle.
#[verifier::external_type_specification]
#[verifier::external_body]
pub struct ExAdapter(wgpu::Adapter);

/// A wgpu device handle.
#[verifier::external_type_specification]
#[verifier::external_body]
pub struct ExDevice(wgpu::Device);

/// A wgpu queue handle.
#[verifier::external_type_specification]
#[verifier::external_body]
pub struct ExQueue(wgpu::Queue);

/// wgpu's `Backend`, a plain enum of the native graphics APIs. Its variants
/// are read as they are declared.
#[verifier::external_type_specification]
pub struct ExBackend(wgpu::Backend);

/// The sub-app that `app` holds under the label `RenderApp`, if any.
pub uninterp spec fn host_render_app(app: App) -> Option<SubApp>;

/// The GPU resources that the world of `render_app` holds.
pub uninterp spec fn held_resources(render_app: SubApp) -> Set<ResourceKind>;

/// The backend that the adapter description in the world of `render_app`
/// records. It means something only while that description is held.
pub uninterp spec fn recorded_backend(render_app: SubApp) -> wgpu::Backend;

/// The adapter inside the `RenderAdapter` resource that the world of
/// `render_app` holds. It means something only while that resource is held.
pub uninterp spec fn held_adapter(render_app: SubApp) -> wgpu::Adapter;

/// The device that the `RenderDevice` resource in the world of `render_app`
/// lends. It means something only while that resource is held.
pub uninterp spec fn held_device(render_app: SubApp) -> wgpu::Device;

/// The instance inside the `RenderInstance` resource that the world of
/// `render_app` holds. It means something only while that resource is held.
pub uninterp spec fn held_instance(render_app: SubApp) -> wgpu::Instance;

/// The queue inside the `RenderQueue` resource that the world of
/// `render_app` holds. It means something only while that resource is held.
pub uninterp spec fn held_queue(render_app: SubApp) -> wgpu::Queue;

/// The adapter that `wrapper` wraps.
pub uninterp spec fn wrapped_adapter(wrapper: WgpuWrapper<wgpu::Adapter>) -> wgpu::Adapter;

/// The instance that `wrapper` wraps.
pub uninterp spec fn wrapped_instance(wrapper: WgpuWrapper<wgpu::Instance>) -> wgpu::Instance;

/// The queue that `wrapper` wraps.
pub uninterp spec fn wrapped_queue(wrapper: WgpuWrapper<wgpu::Queue>) -> wgpu::Queue;

/// The device that `device` lends through `RenderDevice::wgpu_device`.
pub uninterp spec fn lent_device(device: RenderDevice) -> wgpu::Device;

/// Calls `App::get_sub_app` with the label `RenderApp`. The contract gives
/// the result its name: the sub-app under that label, or `None`.
#[verifier::external_body]
pub(crate) fn render_sub_app(app: &App) -> (r: Option<&SubApp>)
    ensures
        r == match host_render_app(*app) {
            Some(render_app) => Some(&render_app),
            None => None,
        },
{
    app.get_sub_app(RenderApp)
}

/// Calls `World::get_resource::<RenderAdapter>` on the world that
/// `SubApp::world` lends and hands out the wrapper inside the resource. It is
/// `Some` exactly when the world holds the resource, and then the wrapper
/// wraps the held adapter.
#[verifier::external_body]
pub(crate) fn find_adapter(render_app: &SubApp) -> (r: Option<&WgpuWrapper<wgpu::Adapter>>)
    ensures
        r is Some <==> held_resources(*render_app).contains(ResourceKind::Adapter),
        r matches Some(wrapper) ==> wrapped_adapter(*wrapper) == held_adapter(*render_app),
{
    render_app.world().get_resource::<RenderAdapter>().map(|adapter| &*adapter.0)
}

/// Calls `World::get_resource::<RenderDevice>` on the world that
/// `SubApp::world` lends. It is `Some` exactly when the world holds the
/// resource, and then the resource lends the held device.
#[verifier::external_body]
pub(crate) fn find_device(render_app: &SubApp) -> (r: Option<&RenderDevice>)
    ensures
        r is Some <==> held_resources(*render_app).contains(ResourceKind::Device),
        r matches Some(device) ==> lent_device(*device) == held_device(*render_app),
{
    render_app.world().get_resource::<RenderDevice>()
}

/// Calls `World::get_resource::<RenderInstance>` on the world that
/// `SubApp::world` lends and hands out the wrapper inside the resource. It is
/// `Some` exactly when the world holds the resource, and then the wrapper
/// wraps the held instance.
#[verifier::external_body]
pub(crate) fn find_instance(render_app: &SubApp) -> (r: Option<&WgpuWrapper<wgpu::Instance>>)
    ensures
        r is Some <==> held_resources(*render_app).contains(ResourceKind::Instance),
        r matches Some(wrapper) ==> wrapped_instance(*wrapper) == held_instance(*render_app),
{
    render_app.world().get_resource::<RenderInstance>().map(|instance| &*instance.0)
}

/// Calls `World::get_resource::<RenderQueue>` on the world that
/// `SubApp::world` lends and hands out the wrapper inside the resource. It is
/// `Some` exactly when the world holds the resource, and then the wrapper
/// wraps the held queue.
#[verifier::external_body]
pub(crate) fn find_queue(render_app: &SubApp) -> (r: Option<&WgpuWrapper<wgpu::Queue>>)
    ensures
        r is Some <==> held_resources(*render_app).contains(ResourceKind::Queue),
        r matches Some(wrapper) ==> wrapped_queue(*wrapper) == held_queue(*render_app),
{
    render_app.world().get_resource::<RenderQueue>().map(|queue| &*queue.0)
}

/// Calls `World::get_resource::<RenderAdapterInfo>` on the world that
/// `SubApp::world` lends and copies the `backend` field out of the
/// description. It is `Some` exactly when the world holds the resource, and
/// then it is the recorded backend.
#[verifier::external_body]
pub(crate) fn find_backend(render_app: &SubApp) -> (r: Option<wgpu::Backend>)
    ensures
        r is Some <==> held_resources(*render_app).contains(ResourceKind::AdapterInfo),
        r matches Some(backend) ==> backend == recorded_backend(*render_app),
{
    render_app.world().get_resource::<RenderAdapterInfo>().map(|info| info.backend)
}

/// Calls `RenderDevice::wgpu_device` and clones the handle it lends, which
/// the resource holds unwrapped. A wgpu handle counts references: the clone
/// refers to the native device that the lent handle refers to, which is what
/// equality of handles means here.
#[verifier::external_body]
pub(crate) fn device_handle(device: &RenderDevice) -> (r: wgpu::Device)
    ensures
        r == lent_device(*device),
{
    device.wgpu_device().clone()
}

} // verus!
