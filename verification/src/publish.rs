//! Publishes the compute device that was built on the shared setup, and
//! hands it to the systems that run afterwards.

use crate::device::BurnDevice;
use crate::host::host_render_app;
use bevy::app::App;
use vstd::prelude::*;

verus! {

/// The device that the main world of `app` holds as its `BurnDevice`
/// resource, if a handoff has published one.
pub uninterp spec fn published_device(app: App) -> Option<BurnDevice>;

/// Calls `App::world` and `World::get_resource::<BurnDevice>` on it. The
/// contract gives the result its name: the `BurnDevice` resource of the main
/// world, or `None`.
#[verifier::external_body]
pub(crate) fn find_published(app: &App) -> (r: Option<&BurnDevice>)
    ensures
        r == match published_device(*app) {
            Some(device) => Some(&device),
            None => None,
        },
{
    app.world().get_resource::<BurnDevice>()
}

/// Calls `App::insert_resource`, which puts `device` into the main world and
/// replaces a `BurnDevice` that is there. The sub-apps are not touched.
#[verifier::external_body]
pub(crate) fn store_device(app: &mut App, device: BurnDevice)
    ensures
        published_device(*final(app)) == Some(device),
        host_render_app(*final(app)) == host_render_app(*old(app)),
{
    app.insert_resource(device);
}

/// How a publication ended.
#[derive(Debug)]
pub enum Publication {
    /// The device that was offered is now the published one.
    Published(BurnDevice),
    /// A device had been published before. It stays, and the one that was
    /// offered is dropped.
    AlreadyPublished(BurnDevice),
}

impl Publication {
    /// The device that is published now.
    pub open spec fn published(self) -> BurnDevice {
        match self {
            Publication::Published(device) => device,
            Publication::AlreadyPublished(device) => device,
        }
    }

    /// The device that is published now.
    pub fn device(&self) -> (device: &BurnDevice)
        ensures
            *device == self.published(),
    {
        match self {
            Publication::Published(device) => device,
            Publication::AlreadyPublished(device) => device,
        }
    }

    /// Whether this publication wrote the device.
    pub fn is_new(&self) -> (new: bool)
        ensures
            new == (*self is Published),
    {
        match self {
            Publication::Published(_) => true,
            Publication::AlreadyPublished(_) => false,
        }
    }
}

/// The published state after `offered` was offered to a state that was
/// `before`: never empty, and the first device stays.
pub open spec fn after_publication(before: Option<BurnDevice>, offered: BurnDevice) -> Option<
    BurnDevice,
> {
    match before {
        Some(kept) => Some(kept),
        None => Some(offered),
    }
}

/// The published state is written at most once: the first device that is
/// offered stays, whatever is offered afterwards.
pub proof fn first_publication_stays(
    before: Option<BurnDevice>,
    first: BurnDevice,
    second: BurnDevice,
)
    ensures
        after_publication(after_publication(before, first), second) == after_publication(
            before,
            first,
        ),
        before is None ==> after_publication(after_publication(before, first), second) == Some(
            first,
        ),
        before is Some ==> after_publication(before, first) == before,
{
}

/// Whoever reads the published state after a publication finds a device,
/// whatever the state was before; nothing is found in a state that no
/// publication has touched.
pub proof fn published_after_publication(before: Option<BurnDevice>, offered: BurnDevice)
    ensures
        after_publication(before, offered) is Some,
        before is None ==> after_publication(before, offered) == Some(offered),
{
}

/// Offers `device` to the published state of `app`.
///
/// Where nothing was published, `device` is published. Where a device was
/// published before, it stays, `app` is unchanged, and the result says so.
pub fn publish_device(app: &mut App, device: BurnDevice) -> (r: Publication)
    ensures
        r is Published <==> published_device(*old(app)) is None,
        published_device(*final(app)) == after_publication(published_device(*old(app)), device),
        published_device(*final(app)) == Some(r.published()),
        host_render_app(*final(app)) == host_render_app(*old(app)),
        r is AlreadyPublished ==> *final(app) == *old(app),
{
    match find_published(app) {
        Some(kept) => Publication::AlreadyPublished(kept.clone()),
        None => {
            store_device(app, device.clone());
            Publication::Published(device)
        },
    }
}

/// The published device, for a system that runs after the handoff: a copy of
/// the holder, or `None` where nothing was published.
pub fn published(app: &App) -> (r: Option<BurnDevice>)
    ensures
        r == published_device(*app),
{
    match find_published(app) {
        Some(device) => Some(device.clone()),
        None => None,
    }
}

} // verus!
