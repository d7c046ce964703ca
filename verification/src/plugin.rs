//! The plugin that runs the handoff when the app has finished building.
//!
//! The handoff has two stages with one call of the compute runtime between
//! them. `BurnPlugin::finish` decides what that call is to be made on, and
//! `publish_device` takes what it returned. The call itself is the caller's:
//! the native API may end the process in it.

use crate::device::BurnDevice;
use crate::extract::{begin_handoff, built_from, HandoffError};
use crate::host::host_render_app;
use crate::publish::{published, published_device};
use crate::resource::handoff_obstacle;
use bevy::app::App;
use cubecl_wgpu::WgpuSetup;
use vstd::prelude::*;

verus! {

/// Shares the renderer's GPU context with the compute runtime.
pub struct BurnPlugin;

/// What is to be done after the first stage of a handoff.
pub enum HandoffStep {
    /// Build a compute device on this setup, which is made of the renderer's
    /// own handles, and offer the device with `publish_device`.
    Construct(WgpuSetup),
    /// A device was published before. Nothing is to be built: that device
    /// stays.
    AlreadyPublished(BurnDevice),
}

impl BurnPlugin {
    /// Does nothing: while plugins are being built the renderer has no GPU
    /// context yet.
    pub fn build(&self, _app: &mut App)
        ensures
            *final(_app) == *old(_app),
    {
    }

    /// Runs the first stage of the handoff on `app`, once the renderer has
    /// set up its GPU resources.
    ///
    /// The renderer is looked up first: where it is not ready, the error
    /// names what is missing, whether or not a device was published before.
    /// Else, where a device was published before, the step names that device.
    /// Else the step holds the setup to build the device on: the renderer's
    /// own four handles and the backend that its adapter description records.
    pub fn finish(&self, app: &App) -> (r: Result<HandoffStep, HandoffError>)
        ensures
            match handoff_obstacle(*app) {
                Some(kind) => r matches Err(HandoffError::MissingResource(missing)) && missing
                    == kind,
                None => match published_device(*app) {
                    Some(kept) => r matches Ok(HandoffStep::AlreadyPublished(device)) && device
                        == kept,
                    None => r matches Ok(HandoffStep::Construct(setup)) && host_render_app(*app)
                        matches Some(render_app) && built_from(setup, render_app),
                },
            },
    {
        match begin_handoff(app) {
            Err(e) => Err(e),
            Ok(setup) => match published(app) {
                Some(kept) => Ok(HandoffStep::AlreadyPublished(kept)),
                None => Ok(HandoffStep::Construct(setup)),
            },
        }
    }
}

} // verus!
