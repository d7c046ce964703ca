use bevy::app::{App, SubApp};
use bevy::render::renderer::{
    RenderAdapter, RenderAdapterInfo, RenderDevice, RenderInstance, RenderQueue, WgpuWrapper,
};
use bevy::render::RenderApp;
use cubecl_wgpu::{RuntimeOptions, WgpuDevice, WgpuSetup};
use gpu_handoff::{
    begin_handoff, duplicate, publish_device, published, same_device, BurnDevice, BurnPlugin,
    HandoffError, HandoffStep, Publication, ResourceKind,
};
use std::collections::hash_map::DefaultHasher;
use std::collections::HashMap;
use std::hash::{Hash, Hasher};
use std::sync::Arc;

/// A setup on the wgpu backend that needs no hardware.
fn software_setup() -> WgpuSetup {
    let mut descriptor = wgpu::InstanceDescriptor::default();
    descriptor.backends = wgpu::Backends::NOOP;
    descriptor.backend_options.noop.enable = true;
    let instance = wgpu::Instance::new(&descriptor);
    let adapter = bevy::tasks::block_on(
        instance.request_adapter(&wgpu::RequestAdapterOptions::default()),
    )
    .unwrap();
    let (device, queue) =
        bevy::tasks::block_on(adapter.request_device(&wgpu::DeviceDescriptor::default())).unwrap();
    let backend = adapter.get_info().backend;
    WgpuSetup { instance, adapter, device, queue, backend }
}

/// An app whose renderer has finished its GPU setup.
fn ready_app() -> App {
    let setup = software_setup();
    let mut render_app = SubApp::new();
    render_app.insert_resource(RenderAdapterInfo(WgpuWrapper::new(setup.adapter.get_info())));
    render_app.insert_resource(RenderAdapter(Arc::new(WgpuWrapper::new(setup.adapter))));
    render_app.insert_resource(RenderDevice::from(setup.device));
    render_app.insert_resource(RenderInstance(Arc::new(WgpuWrapper::new(setup.instance))));
    render_app.insert_resource(RenderQueue(Arc::new(WgpuWrapper::new(setup.queue))));
    let mut app = App::new();
    app.insert_sub_app(RenderApp, render_app);
    app
}

fn all_devices() -> Vec<WgpuDevice> {
    #[allow(deprecated)]
    let best = WgpuDevice::BestAvailable;
    vec![
        WgpuDevice::DiscreteGpu(0),
        WgpuDevice::DiscreteGpu(1),
        WgpuDevice::IntegratedGpu(0),
        WgpuDevice::IntegratedGpu(1),
        WgpuDevice::VirtualGpu(0),
        WgpuDevice::VirtualGpu(1),
        WgpuDevice::Cpu,
        WgpuDevice::DefaultDevice,
        best,
        WgpuDevice::Existing(0),
        WgpuDevice::Existing(1),
    ]
}

fn hash_of(device: &BurnDevice) -> u64 {
    let mut hasher = DefaultHasher::new();
    device.hash(&mut hasher);
    hasher.finish()
}

/// Runs both stages of the handoff with the device construction between
/// them, as a plugin does.
fn hand_off(app: &mut App) -> Result<Publication, HandoffError> {
    match BurnPlugin.finish(app)? {
        HandoffStep::AlreadyPublished(kept) => Ok(Publication::AlreadyPublished(kept)),
        HandoffStep::Construct(setup) => {
            let device = cubecl_wgpu::init_device(setup, RuntimeOptions::default());
            Ok(publish_device(app, BurnDevice(device)))
        }
    }
}

fn missing(r: Result<HandoffStep, HandoffError>) -> ResourceKind {
    match r {
        Ok(_) => panic!("the first stage succeeded"),
        Err(e) => e.missing(),
    }
}

#[test]
fn first_stage_hands_out_the_renderers_context() {
    let setup = software_setup();
    let mut render_app = SubApp::new();
    let mut info = setup.adapter.get_info();
    info.backend = wgpu::Backend::Vulkan;
    render_app.insert_resource(RenderAdapterInfo(WgpuWrapper::new(info)));
    render_app.insert_resource(RenderAdapter(Arc::new(WgpuWrapper::new(setup.adapter.clone()))));
    render_app.insert_resource(RenderDevice::from(setup.device.clone()));
    render_app.insert_resource(RenderInstance(Arc::new(WgpuWrapper::new(setup.instance.clone()))));
    render_app.insert_resource(RenderQueue(Arc::new(WgpuWrapper::new(setup.queue.clone()))));
    let mut app = App::new();
    app.insert_sub_app(RenderApp, render_app);
    match BurnPlugin.finish(&app) {
        Ok(HandoffStep::Construct(found)) => {
            assert!(found.adapter == setup.adapter);
            assert!(found.device == setup.device);
            assert!(found.instance == setup.instance);
            assert!(found.queue == setup.queue);
            assert_eq!(found.backend, wgpu::Backend::Vulkan);
        }
        _ => panic!("the first stage asked for no device"),
    }
}

#[test]
fn nothing_is_published_before_the_handoff() {
    let app = ready_app();
    assert!(published(&app).is_none());
}

#[test]
fn first_stage_publishes_nothing() {
    let app = ready_app();
    assert!(matches!(BurnPlugin.finish(&app), Ok(HandoffStep::Construct(_))));
    assert!(published(&app).is_none());
}

#[test]
fn handoff_publishes_a_device() {
    let mut app = ready_app();
    let publication = hand_off(&mut app).unwrap();
    assert!(publication.is_new());
    assert!(matches!(publication.device().0, WgpuDevice::Existing(_)));
    assert!(published(&app).as_ref() == Some(publication.device()));
}

#[test]
fn published_device_is_a_resource_of_the_main_world() {
    let mut app = ready_app();
    let publication = hand_off(&mut app).unwrap();
    let seen = app.world().get_resource::<BurnDevice>().unwrap();
    assert!(seen == publication.device());
}

#[test]
fn second_handoff_keeps_the_first_device() {
    let mut app = ready_app();
    let first = hand_off(&mut app).unwrap();
    match BurnPlugin.finish(&app) {
        Ok(HandoffStep::AlreadyPublished(kept)) => assert!(&kept == first.device()),
        _ => panic!("the second run asked for another device"),
    }
    let second = hand_off(&mut app).unwrap();
    assert!(first.is_new());
    assert!(!second.is_new());
    assert!(matches!(second, Publication::AlreadyPublished(_)));
    assert!(second.device() == first.device());
    assert!(published(&app).as_ref() == Some(first.device()));
}

#[test]
fn finish_before_the_renderer_reports_the_render_app() {
    let mut app = App::new();
    assert_eq!(missing(BurnPlugin.finish(&app)), ResourceKind::RenderApp);
    match hand_off(&mut app) {
        Ok(_) => panic!("the handoff ran without a renderer"),
        Err(e) => assert_eq!(e, HandoffError::MissingResource(ResourceKind::RenderApp)),
    }
    assert!(published(&app).is_none());
    assert!(app.world().get_resource::<BurnDevice>().is_none());
}

#[test]
fn finish_on_an_incomplete_renderer_reports_the_first_gap() {
    let mut app = App::new();
    app.insert_sub_app(RenderApp, SubApp::new());
    assert_eq!(missing(BurnPlugin.finish(&app)), ResourceKind::Adapter);
    assert!(published(&app).is_none());
}

#[test]
fn missing_renderer_is_reported_over_a_published_device() {
    let mut app = App::new();
    publish_device(&mut app, BurnDevice(WgpuDevice::Existing(5)));
    assert_eq!(missing(BurnPlugin.finish(&app)), ResourceKind::RenderApp);
    app.insert_sub_app(RenderApp, SubApp::new());
    assert_eq!(missing(BurnPlugin.finish(&app)), ResourceKind::Adapter);
    assert!(published(&app) == Some(BurnDevice(WgpuDevice::Existing(5))));
}

#[test]
fn ready_renderer_with_a_published_device_asks_for_nothing() {
    let mut app = ready_app();
    publish_device(&mut app, BurnDevice(WgpuDevice::Existing(5)));
    match BurnPlugin.finish(&app) {
        Ok(HandoffStep::AlreadyPublished(kept)) => {
            assert!(kept == BurnDevice(WgpuDevice::Existing(5)))
        }
        _ => panic!("the first stage asked for another device"),
    }
}

#[test]
fn consumer_sees_the_device_only_after_the_handoff() {
    let mut app = ready_app();
    assert!(published(&app).is_none());
    let publication = hand_off(&mut app).unwrap();
    let seen = published(&app).unwrap();
    assert!(&seen == publication.device());
    assert!(published(&app) == Some(seen));
}

#[test]
fn handoff_leaves_the_renderer_its_context() {
    let mut app = ready_app();
    let before = begin_handoff(&app).unwrap();
    hand_off(&mut app).unwrap();
    let after = begin_handoff(&app).unwrap();
    assert!(before.device == after.device);
    assert!(before.adapter == after.adapter);
    assert!(before.instance == after.instance);
    assert!(before.queue == after.queue);
    assert_eq!(before.backend, after.backend);
}

#[test]
fn build_changes_nothing() {
    let mut app = ready_app();
    BurnPlugin.build(&mut app);
    assert!(published(&app).is_none());
    assert!(begin_handoff(&app).is_ok());
}

#[test]
fn devices_of_two_constructions_differ() {
    let first = cubecl_wgpu::init_device(software_setup(), RuntimeOptions::default());
    let second = cubecl_wgpu::init_device(software_setup(), RuntimeOptions::default());
    assert!(matches!(first, WgpuDevice::Existing(_)));
    assert!(matches!(second, WgpuDevice::Existing(_)));
    assert!(BurnDevice(first) != BurnDevice(second));
}

#[test]
fn publish_device_keeps_the_first() {
    let mut app = App::new();
    let first = publish_device(&mut app, BurnDevice(WgpuDevice::Existing(3)));
    assert!(matches!(first, Publication::Published(BurnDevice(WgpuDevice::Existing(3)))));
    let second = publish_device(&mut app, BurnDevice(WgpuDevice::Existing(4)));
    assert!(matches!(second, Publication::AlreadyPublished(BurnDevice(WgpuDevice::Existing(3)))));
    assert!(published(&app) == Some(BurnDevice(WgpuDevice::Existing(3))));
    assert_eq!(second.device().0, WgpuDevice::Existing(3));
}

#[test]
fn copy_equals_the_holder() {
    for device in all_devices() {
        let holder = BurnDevice(device);
        let copy = holder.clone();
        assert!(copy == holder);
        assert!(holder == copy);
        assert_eq!(copy.0, holder.0);
        assert_eq!(hash_of(&copy), hash_of(&holder));
    }
}

#[test]
fn holders_of_different_devices_differ() {
    let devices = all_devices();
    for (i, a) in devices.iter().enumerate() {
        for (j, b) in devices.iter().enumerate() {
            let same = BurnDevice(a.clone()) == BurnDevice(b.clone());
            assert_eq!(same, i == j);
            assert_eq!(same, a == b);
            assert_eq!(same_device(a, b), a == b);
        }
    }
}

#[test]
fn duplicate_copies_every_variant() {
    for device in all_devices() {
        assert_eq!(duplicate(&device), device);
    }
}

#[test]
fn holder_is_a_map_key() {
    let mut tensors: HashMap<BurnDevice, &str> = HashMap::new();
    let holder = BurnDevice(WgpuDevice::Existing(0));
    tensors.insert(holder.clone(), "ones");
    assert_eq!(tensors.get(&holder), Some(&"ones"));
    assert_eq!(tensors.get(&BurnDevice(WgpuDevice::Existing(1))), None);
}

#[test]
fn holder_prints_its_device() {
    let holder = BurnDevice(WgpuDevice::Existing(2));
    assert_eq!(format!("{:?}", holder), "BurnDevice(Existing(2))");
    assert_eq!(holder.device(), &WgpuDevice::Existing(2));
}
