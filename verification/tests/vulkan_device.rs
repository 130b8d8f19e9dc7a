use wgpu_external_memory::formats::{FormatKey, ModifierProperties, ARGB8888, XRGB8888};
use wgpu_external_memory::imp::vulkan::{
    has_instance_prerequisites, open_with_external_memory, request_device, Adapter,
    API_VERSION_1_1,
};
use wgpu_external_memory::imp::{Bootstrap, DeviceInner, NativeOutcome};
use wgpu_external_memory::{ExternalMemoryType, RequestDeviceError};

const WANTED: [&str; 9] = [
    "VK_KHR_external_memory",
    "VK_EXT_external_memory_dma_buf",
    "VK_KHR_external_memory_fd",
    "VK_EXT_image_drm_format_modifier",
    "VK_KHR_bind_memory2",
    "VK_KHR_image_format_list",
    "VK_KHR_sampler_ycbcr_conversion",
    "VK_KHR_maintenance1",
    "VK_KHR_get_memory_requirements2",
];

fn owned(names: &[&str]) -> Vec<String> {
    names.iter().map(|name| name.to_string()).collect()
}

fn device(offered: &[&str]) -> Adapter {
    Adapter {
        instance_extensions: owned(&[
            "VK_KHR_get_physical_device_properties2",
            "VK_KHR_external_memory_capabilities",
        ]),
        device_extensions: Some(owned(offered)),
        driver_api_version: API_VERSION_1_1,
        drm_properties: None,
        id_properties: None,
    }
}

fn linear() -> ModifierProperties {
    ModifierProperties {
        drm_format_modifier: 0,
        drm_format_modifier_plane_count: 1,
        drm_format_modifier_tiling_features: 0x1d401,
    }
}

#[test]
fn device_request_enables_baseline_then_external_memory() {
    let adapter = device(&WANTED);
    assert!(has_instance_prerequisites(&adapter));
    let baseline = owned(&["VK_KHR_swapchain", "VK_KHR_maintenance1"]);
    let request =
        open_with_external_memory(&adapter, &baseline, ExternalMemoryType::Dmabuf).unwrap();
    let mut expected = baseline.clone();
    expected.extend(owned(&WANTED));
    assert_eq!(request.extensions, expected);
    assert_eq!(request.queue_family_index, 0);
    assert_eq!(request.queue_count, 1);
    assert_eq!(request.queue_index, 0);
    assert!(request.handle_is_owned);
}

#[test]
fn same_inputs_negotiate_the_same_extensions() {
    let baseline = owned(&["VK_KHR_swapchain"]);
    let first =
        open_with_external_memory(&device(&WANTED), &baseline, ExternalMemoryType::Dmabuf).unwrap();
    let second =
        open_with_external_memory(&device(&WANTED), &baseline, ExternalMemoryType::Dmabuf).unwrap();
    assert_eq!(first.extensions, second.extensions);
    assert_eq!(first.extensions.len(), 10);
}

#[test]
fn dmabuf_device_needs_the_type_extensions() {
    for skipped in 0..WANTED.len() {
        let mut offered = WANTED.to_vec();
        offered.remove(skipped);
        let adapter = device(&offered);
        assert!(has_instance_prerequisites(&adapter));
        let request = open_with_external_memory(&adapter, &owned(&[]), ExternalMemoryType::Dmabuf);
        assert_eq!(request.err(), Some(RequestDeviceError::MissingDeviceExtensions));
        let bootstrap = request_device(&adapter, &owned(&[]), ExternalMemoryType::Dmabuf);
        assert!(matches!(
            bootstrap,
            Bootstrap::Failed(RequestDeviceError::MissingDeviceExtensions)
        ));
    }
}

#[test]
fn lost_device_cannot_be_opened() {
    let mut adapter = device(&WANTED);
    adapter.device_extensions = None;
    assert!(has_instance_prerequisites(&adapter));
    let request = open_with_external_memory(&adapter, &owned(&[]), ExternalMemoryType::Dmabuf);
    assert_eq!(request.err(), Some(RequestDeviceError::MissingDeviceExtensions));
}

#[test]
fn bootstrap_becomes_ready_with_the_formats() {
    let adapter = device(&WANTED);
    assert!(has_instance_prerequisites(&adapter));
    let bootstrap = request_device(&adapter, &owned(&["VK_KHR_swapchain"]), ExternalMemoryType::Dmabuf);
    match &bootstrap {
        Bootstrap::Bootstrapping(request) => {
            assert_eq!(request.extensions.len(), 10);
            assert_eq!(request.extensions[0], "VK_KHR_swapchain");
            assert_eq!(request.queue_family_index, 0);
        }
        other => panic!("unexpected state {:?}", other),
    }
    match bootstrap.complete(NativeOutcome::Created(vec![linear()])) {
        Bootstrap::Ready(DeviceInner::Vulkan(inner)) => {
            let table = &inner.supported_drm_formats;
            assert_eq!(table.get(FormatKey { code: ARGB8888, modifier: 0 }), Some(linear()));
            assert_eq!(table.get(FormatKey { code: XRGB8888, modifier: 0 }), Some(linear()));
            assert_eq!(table.get(FormatKey { code: XRGB8888, modifier: 1 }), None);
        }
        other => panic!("unexpected state {:?}", other),
    }
}

#[test]
fn bootstrap_fails_when_the_native_layer_refuses() {
    let adapter = device(&WANTED);
    assert!(has_instance_prerequisites(&adapter));
    let bootstrap = request_device(&adapter, &owned(&[]), ExternalMemoryType::Dmabuf);
    let failed = bootstrap.complete(NativeOutcome::Rejected);
    assert!(matches!(failed, Bootstrap::Failed(RequestDeviceError::Native)));
}

#[test]
fn finished_bootstrap_stays_as_it_is() {
    let failed = Bootstrap::Failed(RequestDeviceError::Native);
    let still = failed.complete(NativeOutcome::Created(vec![linear()]));
    assert!(matches!(still, Bootstrap::Failed(RequestDeviceError::Native)));
    let still = still.complete(NativeOutcome::Rejected);
    assert!(matches!(still, Bootstrap::Failed(RequestDeviceError::Native)));

    let adapter = device(&WANTED);
    assert!(has_instance_prerequisites(&adapter));
    let ready = request_device(&adapter, &owned(&[]), ExternalMemoryType::Dmabuf)
        .complete(NativeOutcome::Created(Vec::new()));
    assert!(matches!(ready, Bootstrap::Ready(DeviceInner::Vulkan(_))));
    let still = ready.complete(NativeOutcome::Rejected);
    assert!(matches!(still, Bootstrap::Ready(DeviceInner::Vulkan(_))));

    let idle = Bootstrap::Uninitialized.complete(NativeOutcome::Created(Vec::new()));
    assert!(matches!(idle, Bootstrap::Uninitialized));
}
