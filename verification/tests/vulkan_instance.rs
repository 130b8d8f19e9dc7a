use wgpu_external_memory::imp::vulkan::{
    enabled_layers, make_api_version, negotiate_api_version, required_instance_extensions,
    try_create_instance, InstanceVersion, LoaderReport, API_VERSION_1_0, API_VERSION_1_1,
};
use wgpu_external_memory::instance::{instance_desc, InstanceDescriptor, InstanceFlags};

fn list(names: &[&str]) -> Vec<String> {
    names.iter().map(|name| name.to_string()).collect()
}

fn report(version: InstanceVersion, layers: &[&str]) -> LoaderReport {
    LoaderReport {
        entry_loaded: true,
        instance_version: version,
        baseline_extensions: Some(list(&["VK_KHR_surface", "VK_KHR_xcb_surface"])),
        layers: Some(list(layers)),
        newest_api_version: ash::vk::HEADER_VERSION_COMPLETE,
    }
}

#[test]
fn version_numbers_are_those_of_the_bindings() {
    assert_eq!(API_VERSION_1_0, ash::vk::API_VERSION_1_0);
    assert_eq!(API_VERSION_1_1, ash::vk::API_VERSION_1_1);
    assert_eq!(make_api_version(0, 1, 0, 0), 4194304);
    assert_eq!(make_api_version(0, 1, 1, 0), 4198400);
    assert_eq!(make_api_version(0, 1, 3, 251), ash::vk::make_api_version(0, 1, 3, 251));
    assert_eq!(make_api_version(1, 2, 3, 4), ash::vk::make_api_version(1, 2, 3, 4));
}

#[test]
fn instance_extension_names_are_those_of_the_bindings() {
    let names = required_instance_extensions();
    assert_eq!(
        names,
        list(&[
            ash::vk::KhrExternalMemoryCapabilitiesFn::name().to_str().unwrap(),
            ash::vk::KhrGetPhysicalDeviceProperties2Fn::name().to_str().unwrap(),
        ])
    );
    assert_eq!(
        names,
        list(&["VK_KHR_external_memory_capabilities", "VK_KHR_get_physical_device_properties2"])
    );
}

#[test]
fn version_is_clamped_below_one_one() {
    let newest = ash::vk::HEADER_VERSION_COMPLETE;
    assert_eq!(negotiate_api_version(API_VERSION_1_0, newest), API_VERSION_1_0);
    assert_eq!(negotiate_api_version(API_VERSION_1_1 - 1, newest), API_VERSION_1_0);
    assert_eq!(negotiate_api_version(0, newest), API_VERSION_1_0);
    assert_eq!(negotiate_api_version(API_VERSION_1_1, newest), newest);
    assert_eq!(negotiate_api_version(ash::vk::API_VERSION_1_3, newest), newest);
    assert_eq!(negotiate_api_version(u32::MAX, 77), 77);
}

#[test]
fn configuration_decides_the_flags() {
    let release = instance_desc(false);
    assert_eq!(release.name, "wgpu-drm");
    assert_eq!(release.flags, InstanceFlags::empty());
    let debug = instance_desc(true);
    assert_eq!(debug.name, "wgpu-drm");
    assert_eq!(debug.flags, InstanceFlags { debug: true, validation: true });
    assert_eq!(InstanceFlags::for_configuration(false), InstanceFlags::empty());
}

#[test]
fn validation_layer_needs_flag_and_installation() {
    let installed = list(&["VK_LAYER_MESA_overlay", "VK_LAYER_KHRONOS_validation"]);
    let on = InstanceFlags { debug: false, validation: true };
    let off = InstanceFlags { debug: true, validation: false };
    assert_eq!(enabled_layers(on, &installed), list(&["VK_LAYER_KHRONOS_validation"]));
    assert_eq!(enabled_layers(off, &installed), list(&[]));
    assert_eq!(enabled_layers(on, &list(&["VK_LAYER_MESA_overlay"])), list(&[]));
    assert_eq!(enabled_layers(on, &list(&[])), list(&[]));
}

#[test]
fn release_instance_never_enables_validation() {
    let installed = ["VK_LAYER_KHRONOS_validation", "VK_LAYER_NV_optimus"];
    let request =
        try_create_instance(&instance_desc(false), &report(InstanceVersion::Reported(API_VERSION_1_1), &installed))
            .unwrap();
    assert!(request.layers.is_empty());
    assert!(!request.layers.contains(&"VK_LAYER_KHRONOS_validation".to_string()));
    assert!(request.has_nv_optimus);
    assert_eq!(request.flags, InstanceFlags::empty());
}

#[test]
fn debug_instance_enables_installed_validation() {
    let request = try_create_instance(
        &instance_desc(true),
        &report(InstanceVersion::Reported(ash::vk::API_VERSION_1_2), &["VK_LAYER_KHRONOS_validation"]),
    )
    .unwrap();
    assert_eq!(request.layers, list(&["VK_LAYER_KHRONOS_validation"]));
    assert!(!request.has_nv_optimus);
    assert_eq!(request.api_version, ash::vk::HEADER_VERSION_COMPLETE);
    assert_eq!(request.driver_api_version, ash::vk::API_VERSION_1_2);
    let request =
        try_create_instance(&instance_desc(true), &report(InstanceVersion::Reported(API_VERSION_1_1), &[]))
            .unwrap();
    assert!(request.layers.is_empty());
}

#[test]
fn instance_request_is_complete() {
    let desc = InstanceDescriptor {
        name: "probe".to_string(),
        flags: InstanceFlags { debug: true, validation: false },
    };
    let request = try_create_instance(&desc, &report(InstanceVersion::Unavailable, &[])).unwrap();
    assert_eq!(request.application_name, "probe");
    assert_eq!(request.application_version, 1);
    assert_eq!(request.engine_name, "wgpu-hal");
    assert_eq!(request.engine_version, 2);
    assert_eq!(request.driver_api_version, API_VERSION_1_0);
    assert_eq!(request.api_version, API_VERSION_1_0);
    assert_eq!(request.android_sdk_version, 0);
    assert_eq!(
        request.extensions,
        list(&[
            "VK_KHR_surface",
            "VK_KHR_xcb_surface",
            "VK_KHR_external_memory_capabilities",
            "VK_KHR_get_physical_device_properties2",
        ])
    );
    assert!(request.layers.is_empty());
    assert_eq!(request.flags, desc.flags);
    assert!(!request.has_nv_optimus);
}

#[test]
fn baseline_extension_is_not_deduplicated() {
    let mut loader = report(InstanceVersion::Reported(API_VERSION_1_1), &[]);
    loader.baseline_extensions = Some(list(&["VK_KHR_get_physical_device_properties2"]));
    let request = try_create_instance(&instance_desc(false), &loader).unwrap();
    assert_eq!(
        request.extensions,
        list(&[
            "VK_KHR_get_physical_device_properties2",
            "VK_KHR_external_memory_capabilities",
            "VK_KHR_get_physical_device_properties2",
        ])
    );
}

#[test]
fn incomplete_report_gives_no_instance() {
    let desc = instance_desc(true);
    let complete = report(InstanceVersion::Reported(API_VERSION_1_1), &[]);
    assert!(try_create_instance(&desc, &complete).is_some());

    let mut loader = complete.clone();
    loader.entry_loaded = false;
    assert!(try_create_instance(&desc, &loader).is_none());

    let mut loader = complete.clone();
    loader.instance_version = InstanceVersion::Failed;
    assert!(try_create_instance(&desc, &loader).is_none());

    let mut loader = complete.clone();
    loader.baseline_extensions = None;
    assert!(try_create_instance(&desc, &loader).is_none());

    let mut loader = complete.clone();
    loader.layers = None;
    assert!(try_create_instance(&desc, &loader).is_none());
}
