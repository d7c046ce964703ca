//! Takes a wgpu handle out of the wrapper that bevy keeps it in.
//!
//! Each function clones the wrapper with `WgpuWrapper::clone` and takes the
//! handle out of the clone with `WgpuWrapper::into_inner`, so the renderer
//! keeps its own. A wgpu handle counts references: the handle that comes out
//! refers to the native object that the wrapped one refers to, which is what
//! equality of handles means here. There is one function for each kind of
//! handle, since what a wrapper wraps has a name for each kind.

use crate::host::{wrapped_adapter, wrapped_instance, wrapped_queue};
use bevy::render::renderer::WgpuWrapper;
use vstd::prelude::*;

verus! {

/// Calls `WgpuWrapper::clone` and `WgpuWrapper::into_inner` on a wrapped
/// adapter. The result is the adapter that the wrapper wraps.
#[verifier::external_body]
pub(crate) fn unwrap_adapter(wrapper: &WgpuWrapper<wgpu::Adapter>) -> (inner: wgpu::Adapter)
    ensures
        inner == wrapped_adapter(*wrapper),
{
    <WgpuWrapper<wgpu::Adapter> as Clone>::clone(wrapper).into_inner()
}

/// Calls `WgpuWrapper::clone` and `WgpuWrapper::into_inner` on a wrapped
/// instance. The result is the instance that the wrapper wraps.
#[verifier::external_body]
pub(crate) fn unwrap_instance(wrapper: &WgpuWrapper<wgpu::Instance>) -> (inner: wgpu::Instance)
    ensures
        inner == wrapped_instance(*wrapper),
{
    <WgpuWrapper<wgpu::Instance> as Clone>::clone(wrapper).into_inner()
}

/// Calls `WgpuWrapper::clone` and `WgpuWrapper::into_inner` on a wrapped
/// queue. The result is the queue that the wrapper wraps.
#[verifier::external_body]
pub(crate) fn unwrap_queue(wrapper: &WgpuWrapper<wgpu::Queue>) -> (inner: wgpu::Queue)
    ensures
        inner == wrapped_queue(*wrapper),
{
    <WgpuWrapper<wgpu::Queue> as Clone>::clone(wrapper).into_inner()
}

} // verus!
