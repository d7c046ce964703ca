//! The host resources that the handoff depends on, and the order in which it
//! asks for them.

use crate::host::{held_resources, host_render_app};
use bevy::app::App;
use vstd::prelude::*;

verus! {

/// One of the things that the renderer must have set up before its GPU
/// context can be shared.
#[derive(Clone, Copy, Debug, PartialEq, Eq, Hash, Structural)]
pub enum ResourceKind {
    /// The render sub-app itself.
    RenderApp,
    /// The adapter that stands for the physical device.
    Adapter,
    /// The logical device.
    Device,
    /// The wgpu instance.
    Instance,
    /// The command queue.
    Queue,
    /// The adapter's description, which carries the backend tag.
    AdapterInfo,
}

/// The place of a resource in the order of the lookups. The render sub-app
/// comes first, since the resources are looked up in it.
pub open spec fn lookup_rank(kind: ResourceKind) -> nat {
    match kind {
        ResourceKind::RenderApp => 0,
        ResourceKind::Adapter => 1,
        ResourceKind::Device => 2,
        ResourceKind::Instance => 3,
        ResourceKind::Queue => 4,
        ResourceKind::AdapterInfo => 5,
    }
}

/// Whether `earlier` is one of the five GPU resources and is looked up
/// before `later`.
pub open spec fn looked_up_before(earlier: ResourceKind, later: ResourceKind) -> bool {
    0 < lookup_rank(earlier) < lookup_rank(later)
}

/// The first resource, in lookup order, that a render sub-app holding `held`
/// lacks; `None` when it holds all five.
pub open spec fn first_missing(held: Set<ResourceKind>) -> Option<ResourceKind> {
    if !held.contains(ResourceKind::Adapter) {
        Some(ResourceKind::Adapter)
    } else if !held.contains(ResourceKind::Device) {
        Some(ResourceKind::Device)
    } else if !held.contains(ResourceKind::Instance) {
        Some(ResourceKind::Instance)
    } else if !held.contains(ResourceKind::Queue) {
        Some(ResourceKind::Queue)
    } else if !held.contains(ResourceKind::AdapterInfo) {
        Some(ResourceKind::AdapterInfo)
    } else {
        None
    }
}

/// Whether a render sub-app holding `held` has all five GPU resources.
pub open spec fn host_complete(held: Set<ResourceKind>) -> bool {
    forall|kind: ResourceKind| kind != ResourceKind::RenderApp ==> held.contains(kind)
}

/// What stops a handoff on `app`: the render sub-app where there is none,
/// else the first GPU resource that it lacks; `None` once the renderer has
/// finished its GPU setup.
pub open spec fn handoff_obstacle(app: App) -> Option<ResourceKind> {
    match host_render_app(app) {
        None => Some(ResourceKind::RenderApp),
        Some(render_app) => first_missing(held_resources(render_app)),
    }
}

/// Nothing is missing exactly from a complete host, and a resource that is
/// named as missing is not held, while all that are looked up before it are.
pub proof fn first_missing_is_missing(held: Set<ResourceKind>)
    ensures
        first_missing(held) is None <==> host_complete(held),
        first_missing(held) matches Some(kind) ==> kind != ResourceKind::RenderApp
            && !held.contains(kind) && forall|earlier: ResourceKind|
            looked_up_before(earlier, kind) ==> held.contains(earlier),
{
    if first_missing(held) is None {
        assert forall|kind: ResourceKind| kind != ResourceKind::RenderApp implies held.contains(
            kind,
        ) by {
            match kind {
                ResourceKind::RenderApp => {},
                ResourceKind::Adapter => {},
                ResourceKind::Device => {},
                ResourceKind::Instance => {},
                ResourceKind::Queue => {},
                ResourceKind::AdapterInfo => {},
            }
        }
    }
}

/// A handoff can start exactly when the render sub-app exists and is
/// complete: before the renderer has set up its GPU resources there is an
/// obstacle, afterwards there is none.
pub proof fn obstacle_iff_not_ready(app: App)
    ensures
        handoff_obstacle(app) is None <==> (host_render_app(app) matches Some(render_app)
            && host_complete(held_resources(render_app))),
        handoff_obstacle(app) == Some(ResourceKind::RenderApp) <==> host_render_app(app) is None,
{
    match host_render_app(app) {
        None => {},
        Some(render_app) => {
            first_missing_is_missing(held_resources(render_app));
        },
    }
}

} // verus!
