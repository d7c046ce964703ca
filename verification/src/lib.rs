//! Hands the GPU context of a running bevy renderer over to the CubeCL wgpu
//! runtime that burn computes on, so that both work on one instance, adapter,
//! device and queue.
//!
//! The handoff is a one-time sequence: the four GPU handles and the backend
//! tag are looked up in the render sub-app and assembled into a `WgpuSetup`;
//! the caller registers a compute device on that setup; and the device is
//! published as a resource of the main world, where later systems read it.

pub mod context;
pub mod device;
pub mod extract;
pub mod host;
pub mod plugin;
pub mod publish;
pub mod resource;
mod unwrap;

pub use context::{adapt, GpuHandles};
pub use device::{duplicate, same_device, BurnDevice};
pub use extract::{begin_handoff, built_from, extract, taken_from, HandoffError};
pub use host::{
    held_adapter, held_device, held_instance, held_queue, held_resources, host_render_app,
    recorded_backend,
};
pub use plugin::{BurnPlugin, HandoffStep};
pub use publish::{
    after_publication, publish_device, published, published_device, Publication,
};
pub use resource::{first_missing, handoff_obstacle, host_complete, ResourceKind};
