//! The Vulkan backend: which extensions each capability needs, what an
//! instance and a device are created with, and what an adapter supports.

use crate::adapter::{DeviceUuids, DrmInfo};
use crate::instance::{InstanceDescriptor, InstanceFlags};
use crate::names::{contains_all, contains_name, extend_names, has_all, missing_from, missing_names, names_of};
use crate::formats::{table_of_modifiers, FormatTable, ModifierProperties};
use crate::imp::Bootstrap;
use crate::{ExternalMemoryCapabilities, ExternalMemoryType, RequestDeviceError};
use vstd::prelude::*;

verus! {

/// Version number of Vulkan 1.0.
pub const API_VERSION_1_0: u32 = 0x0040_0000;

/// Version number of Vulkan 1.1.
pub const API_VERSION_1_1: u32 = 0x0040_1000;

/// The packed form of a version: variant, major, minor and patch in one number.
pub open spec fn spec_make_api_version(variant: u32, major: u32, minor: u32, patch: u32) -> u32 {
    (variant << 29) | (major << 22) | (minor << 12) | patch
}

/// Packs a version number.
pub fn make_api_version(variant: u32, major: u32, minor: u32, patch: u32) -> (version: u32)
    ensures
        version == spec_make_api_version(variant, major, minor, patch),
{
    (variant << 29) | (major << 22) | (minor << 12) | patch
}

/// The two named versions are the packed forms of 1.0 and 1.1.
pub proof fn named_versions()
    ensures
        API_VERSION_1_0 == spec_make_api_version(0, 1, 0, 0),
        API_VERSION_1_1 == spec_make_api_version(0, 1, 1, 0),
{
    assert(0x0040_0000u32 == (0u32 << 29) | (1u32 << 22) | (0u32 << 12) | 0u32) by (bit_vector);
    assert(0x0040_1000u32 == (0u32 << 29) | (1u32 << 22) | (1u32 << 12) | 0u32) by (bit_vector);
}

/// Name of the validation layer.
pub open spec fn validation_layer() -> Seq<char> {
    "VK_LAYER_KHRONOS_validation"@
}

/// Name of the vendor layer whose presence is passed on to the instance.
pub open spec fn nv_optimus_layer() -> Seq<char> {
    "VK_LAYER_NV_optimus"@
}

/// Instance extensions required to use external memory.
pub open spec fn instance_extension_names() -> Seq<Seq<char>> {
    seq!["VK_KHR_external_memory_capabilities"@, "VK_KHR_get_physical_device_properties2"@]
}

/// Device extensions required to use all external memory handles.
pub open spec fn device_extension_names() -> Seq<Seq<char>> {
    seq!["VK_KHR_external_memory"@]
}

/// Device extensions required to use dmabuf handles.
pub open spec fn dmabuf_extension_names() -> Seq<Seq<char>> {
    seq![
        "VK_EXT_external_memory_dma_buf"@,
        "VK_KHR_external_memory_fd"@,
        "VK_EXT_image_drm_format_modifier"@,
        "VK_KHR_bind_memory2"@,
        "VK_KHR_image_format_list"@,
        "VK_KHR_sampler_ycbcr_conversion"@,
        "VK_KHR_maintenance1"@,
        "VK_KHR_get_memory_requirements2"@,
    ]
}

/// Device extensions required to use handles of one type.
pub open spec fn memory_type_extension_names(ty: ExternalMemoryType) -> Seq<Seq<char>> {
    match ty {
        ExternalMemoryType::Dmabuf => dmabuf_extension_names(),
    }
}

/// Name of the device extension that reports DRM nodes.
pub open spec fn physical_device_drm_name() -> Seq<char> {
    "VK_EXT_physical_device_drm"@
}

/// Instance extensions required to use external memory.
pub fn required_instance_extensions() -> (list: Vec<String>)
    ensures
        names_of(list@) == instance_extension_names(),
{
    let mut list: Vec<String> = Vec::new();
    // dependency of VK_KHR_external_memory
    list.push("VK_KHR_external_memory_capabilities".to_owned());
    list.push("VK_KHR_get_physical_device_properties2".to_owned());
    assert(names_of(list@) =~= instance_extension_names());
    list
}

/// Device extensions required to use all external memory handles.
pub fn required_device_extensions() -> (list: Vec<String>)
    ensures
        names_of(list@) == device_extension_names(),
{
    let mut list: Vec<String> = Vec::new();
    list.push("VK_KHR_external_memory".to_owned());
    assert(names_of(list@) =~= device_extension_names());
    list
}

/// Device extensions required to use handles of one type.
pub fn memory_type_extensions(ty: ExternalMemoryType) -> (list: Vec<String>)
    ensures
        names_of(list@) == memory_type_extension_names(ty),
{
    let mut list: Vec<String> = Vec::new();
    match ty {
        ExternalMemoryType::Dmabuf => {
            list.push("VK_EXT_external_memory_dma_buf".to_owned());
            list.push("VK_KHR_external_memory_fd".to_owned());
            list.push("VK_EXT_image_drm_format_modifier".to_owned());
            list.push("VK_KHR_bind_memory2".to_owned());
            list.push("VK_KHR_image_format_list".to_owned());
            list.push("VK_KHR_sampler_ycbcr_conversion".to_owned());
            list.push("VK_KHR_maintenance1".to_owned());
            list.push("VK_KHR_get_memory_requirements2".to_owned());
            assert(names_of(list@) =~= dmabuf_extension_names());
        },
    }
    list
}

/// What the loader answered when asked for the instance version.
#[derive(Clone, Copy, Debug, PartialEq, Eq, Structural)]
pub enum InstanceVersion {
    /// The query itself failed.
    Failed,
    /// The loader has no such query: it is a Vulkan 1.0 loader.
    Unavailable,
    /// The version that the loader reported.
    Reported(u32),
}

/// What the Vulkan loader answered while an instance was prepared.
#[derive(Clone, Debug)]
pub struct LoaderReport {
    /// Whether the entry points could be loaded.
    pub entry_loaded: bool,
    /// The version of the instance level of the driver.
    pub instance_version: InstanceVersion,
    /// The extensions that the graphics layer itself asks for, or nothing if
    /// they could not be determined.
    pub baseline_extensions: Option<Vec<String>>,
    /// The names of the layers that are installed, or nothing if they could
    /// not be enumerated.
    pub layers: Option<Vec<String>>,
    /// The newest version that the graphics layer can work with.
    pub newest_api_version: u32,
}

/// What a native instance is created with.
#[derive(Clone, Debug)]
pub struct InstanceRequest {
    /// Name of the application.
    pub application_name: String,
    /// Version of the application.
    pub application_version: u32,
    /// Name of the engine.
    pub engine_name: String,
    /// Version of the engine.
    pub engine_version: u32,
    /// The version that is asked for.
    pub api_version: u32,
    /// The version that the driver reported.
    pub driver_api_version: u32,
    /// Always 0: no Android.
    pub android_sdk_version: u32,
    /// The layers to enable.
    pub layers: Vec<String>,
    /// The extensions to enable.
    pub extensions: Vec<String>,
    /// What the instance is asked for.
    pub flags: InstanceFlags,
    /// Whether the NV Optimus layer is installed.
    pub has_nv_optimus: bool,
}

/// The version of the driver: a loader without the query is a 1.0 loader.
pub open spec fn spec_driver_version(version: InstanceVersion) -> u32 {
    match version {
        InstanceVersion::Reported(v) => v,
        _ => API_VERSION_1_0,
    }
}

/// The version to ask for: 1.0 from a driver below 1.1, else the newest
/// that the graphics layer can work with.
pub open spec fn spec_negotiate_api_version(driver_api_version: u32, newest: u32) -> u32 {
    if driver_api_version < API_VERSION_1_1 {
        API_VERSION_1_0
    } else {
        newest
    }
}

/// The version to ask an instance for. Vulkan 1.0 accepts nothing but 1.0.
pub fn negotiate_api_version(driver_api_version: u32, newest: u32) -> (version: u32)
    ensures
        version == spec_negotiate_api_version(driver_api_version, newest),
{
    if driver_api_version < API_VERSION_1_1 {
        API_VERSION_1_0
    } else {
        newest
    }
}

/// The layers to enable: the validation layer where validation is asked
/// for and the layer is installed, and no other.
pub open spec fn spec_enabled_layers(flags: InstanceFlags, installed: Seq<Seq<char>>) -> Seq<
    Seq<char>,
> {
    if flags.validation && installed.contains(validation_layer()) {
        seq![validation_layer()]
    } else {
        Seq::empty()
    }
}

/// The layers to enable for an instance.
pub fn enabled_layers(flags: InstanceFlags, installed: &Vec<String>) -> (layers: Vec<String>)
    ensures
        names_of(layers@) == spec_enabled_layers(flags, names_of(installed@)),
        !flags.validation ==> layers@.len() == 0,
{
    let mut layers: Vec<String> = Vec::new();
    // Only keep available layers.
    if flags.validation {
        let validation = "VK_LAYER_KHRONOS_validation".to_owned();
        if contains_name(installed, &validation) {
            layers.push(validation);
        }
    }
    assert(names_of(layers@) =~= spec_enabled_layers(flags, names_of(installed@)));
    layers
}

/// Whether the report holds everything that an instance needs.
pub open spec fn spec_report_complete(report: LoaderReport) -> bool {
    &&& report.entry_loaded
    &&& report.instance_version != InstanceVersion::Failed
    &&& report.baseline_extensions.is_some()
    &&& report.layers.is_some()
}

/// Prepares the creation of a Vulkan instance that can probe for DRM nodes
/// and external memory.
///
/// Nothing is returned where the entry points are missing or one of the
/// loader's answers is: the caller may then fall back to another backend.
/// Otherwise the request asks for the negotiated version, for the
/// extensions of the graphics layer followed by those of this crate, and
/// for the validation layer where it is wanted and installed.
pub fn try_create_instance(desc: &InstanceDescriptor, report: &LoaderReport) -> (request: Option<
    InstanceRequest,
>)
    ensures
        request.is_some() <==> spec_report_complete(*report),
        request matches Some(r) ==> {
            &&& r.application_name@ == desc.name@
            &&& r.application_version == 1
            &&& r.engine_name@ == "wgpu-hal"@
            &&& r.engine_version == 2
            &&& r.driver_api_version == spec_driver_version(report.instance_version)
            &&& r.api_version == spec_negotiate_api_version(
                r.driver_api_version,
                report.newest_api_version,
            )
            &&& r.android_sdk_version == 0
            &&& names_of(r.extensions@) == names_of(report.baseline_extensions.unwrap()@)
                + instance_extension_names()
            &&& names_of(r.layers@) == spec_enabled_layers(
                desc.flags,
                names_of(report.layers.unwrap()@),
            )
            &&& r.flags == desc.flags
            &&& r.has_nv_optimus == names_of(report.layers.unwrap()@).contains(nv_optimus_layer())
        },
        !desc.flags.validation ==> (request matches Some(r) ==> !names_of(r.layers@).contains(
            validation_layer(),
        )),
{
    if !report.entry_loaded {
        return None;
    }
    let driver_api_version: u32 = match report.instance_version {
        // Vulkan 1.1+
        InstanceVersion::Reported(version) => version,
        InstanceVersion::Unavailable => API_VERSION_1_0,
        InstanceVersion::Failed => {
            return None;
        },
    };
    let mut extensions: Vec<String> = match &report.baseline_extensions {
        Some(baseline) => baseline.clone(),
        None => {
            return None;
        },
    };
    let required = required_instance_extensions();
    extend_names(&mut extensions, &required);
    let installed: &Vec<String> = match &report.layers {
        Some(installed) => installed,
        None => {
            return None;
        },
    };
    let has_nv_optimus = contains_name(installed, &"VK_LAYER_NV_optimus".to_owned());
    let layers = enabled_layers(desc.flags, installed);
    Some(
        InstanceRequest {
            application_name: desc.name.clone(),
            application_version: 1,
            engine_name: "wgpu-hal".to_owned(),
            engine_version: 2,
            api_version: negotiate_api_version(driver_api_version, report.newest_api_version),
            driver_api_version,
            android_sdk_version: 0,
            layers,
            extensions,
            flags: desc.flags,
            has_nv_optimus,
        },
    )
}

/// The DRM nodes of a physical device, as the driver structure holds them.
#[derive(Clone, Copy, Debug)]
pub struct DrmProperties {
    /// 1 if the device has a primary node.
    pub has_primary: u32,
    /// 1 if the device has a render node.
    pub has_render: u32,
    /// Major number of the primary node.
    pub primary_major: i64,
    /// Minor number of the primary node.
    pub primary_minor: i64,
    /// Major number of the render node.
    pub render_major: i64,
    /// Minor number of the render node.
    pub render_minor: i64,
}

/// The identifiers of a physical device, as the driver structure holds them.
#[derive(Clone, Copy, Debug)]
pub struct IdProperties {
    /// Names the physical device.
    pub device_uuid: [u8; 16],
    /// Names the driver.
    pub driver_uuid: [u8; 16],
}

/// A Vulkan adapter, as far as this crate reads it.
#[derive(Clone, Debug)]
pub struct Adapter {
    /// The extensions that were enabled on the instance of this adapter.
    pub instance_extensions: Vec<String>,
    /// The extensions that the physical device offers, or nothing if they
    /// could not be enumerated (the device may be lost).
    pub device_extensions: Option<Vec<String>>,
    /// The version that the driver reported for the instance.
    pub driver_api_version: u32,
    /// The DRM properties of the physical device, where they were queried.
    /// They are read only if the device offers the extension behind them.
    pub drm_properties: Option<DrmProperties>,
    /// The identifiers of the physical device, where they were queried.
    /// They are read only from a driver of version 1.1 or later.
    pub id_properties: Option<IdProperties>,
}

/// The entry point through which extended properties are queried.
#[derive(Clone, Copy, Debug, PartialEq, Eq, Structural)]
pub enum PropertiesQuery {
    /// The query is part of the core: the driver is newer than 1.0.
    Core,
    /// The query has to be loaded from its extension.
    Extension,
}

impl Adapter {
    /// The names that the physical device offers; none if they could not be
    /// enumerated.
    pub open spec fn offered(self) -> Seq<Seq<char>> {
        match self.device_extensions {
            Some(list) => names_of(list@),
            None => Seq::empty(),
        }
    }

    /// Every instance extension that external memory needs is enabled.
    pub open spec fn has_instance_prerequisites(self) -> bool {
        has_all(names_of(self.instance_extensions@), instance_extension_names())
    }

    /// The physical device offers the extension that reports DRM nodes.
    pub open spec fn supports_drm(self) -> bool {
        self.offered().contains(physical_device_drm_name())
    }

    /// The physical device offers every device extension that handles of
    /// this type need.
    pub open spec fn offers_memory_type(self, ty: ExternalMemoryType) -> bool {
        &&& has_all(self.offered(), device_extension_names())
        &&& has_all(self.offered(), memory_type_extension_names(ty))
    }

    /// Handles of this type can be used: both scopes hold all they need.
    pub open spec fn spec_supports_memory_type(self, ty: ExternalMemoryType) -> bool {
        self.has_instance_prerequisites() && self.offers_memory_type(ty)
    }

    /// What [`get_drm_info`] answers.
    pub open spec fn spec_drm_info(self) -> Option<DrmInfo> {
        if self.supports_drm() {
            match self.drm_properties {
                Some(p) => DrmInfo::spec_from_nodes(
                    spec_node(p.has_primary, p.primary_major, p.primary_minor),
                    spec_node(p.has_render, p.render_major, p.render_minor),
                ),
                None => None,
            }
        } else {
            None
        }
    }

    /// The identifiers are part of what the driver reports: it is of
    /// version 1.1 or later.
    pub open spec fn supports_uuids(self) -> bool {
        self.driver_api_version >= API_VERSION_1_1
    }

    /// What [`get_device_uuids`] answers.
    pub open spec fn spec_device_uuids(self) -> Option<DeviceUuids> {
        if self.supports_uuids() {
            match self.id_properties {
                Some(p) => Some(
                    DeviceUuids { driver_uuid: p.driver_uuid, device_uuid: p.device_uuid },
                ),
                None => None,
            }
        } else {
            None
        }
    }
}

/// A node that the driver structure names: present where its flag is 1,
/// with the numbers as the structure holds them, taken as unsigned.
pub open spec fn spec_node(has: u32, major: i64, minor: i64) -> Option<(u64, u64)> {
    if has == 1 {
        Some((major as u64, minor as u64))
    } else {
        None
    }
}

fn node(has: u32, major: i64, minor: i64) -> (numbers: Option<(u64, u64)>)
    ensures
        numbers == spec_node(has, major, minor),
{
    if has == 1 {
        Some((major as u64, minor as u64))
    } else {
        None
    }
}

fn offers(adapter: &Adapter, name: &String) -> (found: bool)
    ensures
        found == adapter.offered().contains(name@),
{
    match &adapter.device_extensions {
        Some(list) => contains_name(list, name),
        None => false,
    }
}

fn offers_all(adapter: &Adapter, wanted: &Vec<String>) -> (all: bool)
    ensures
        all == has_all(adapter.offered(), names_of(wanted@)),
{
    match &adapter.device_extensions {
        Some(list) => contains_all(list, wanted),
        None => {
            assert(wanted@.len() > 0 ==> !adapter.offered().contains(names_of(wanted@)[0]));
            wanted.len() == 0
        },
    }
}

/// Says whether the DRM properties of the adapter are to be queried, and
/// through which entry point. Nothing is to be queried where the device
/// extensions could not be enumerated or lack the extension.
pub fn drm_properties_query(adapter: &Adapter) -> (query: Option<PropertiesQuery>)
    ensures
        query.is_some() <==> adapter.supports_drm(),
        query matches Some(q) ==> (q == PropertiesQuery::Core) == (adapter.driver_api_version
            > API_VERSION_1_0),
{
    if offers(adapter, &"VK_EXT_physical_device_drm".to_owned()) {
        Some(properties_query(adapter.driver_api_version))
    } else {
        // Device was lost or required extensions are not available.
        None
    }
}

/// The entry point for extended properties under a driver of this version.
pub fn properties_query(version: u32) -> (query: PropertiesQuery)
    ensures
        (query == PropertiesQuery::Core) == (version > API_VERSION_1_0),
{
    if version > API_VERSION_1_0 {
        PropertiesQuery::Core
    } else {
        PropertiesQuery::Extension
    }
}

/// The DRM nodes of the adapter.
///
/// Nothing is returned where the physical device lacks the extension, where
/// its properties were not obtained, or where they name neither node.
pub fn get_drm_info(adapter: &Adapter) -> (info: Option<DrmInfo>)
    ensures
        info == adapter.spec_drm_info(),
        info matches Some(i) ==> i.wf(),
        !adapter.supports_drm() ==> info.is_none(),
{
    if !offers(adapter, &"VK_EXT_physical_device_drm".to_owned()) {
        return None;
    }
    match adapter.drm_properties {
        Some(p) => DrmInfo::from_nodes(
            node(p.has_primary, p.primary_major, p.primary_minor),
            node(p.has_render, p.render_major, p.render_minor),
        ),
        None => None,
    }
}

/// Tests whether the identifiers of the adapter can be read: they are
/// part of the core from version 1.1 on.
pub fn supports_device_uuids(adapter: &Adapter) -> (supported: bool)
    ensures
        supported == adapter.supports_uuids(),
{
    adapter.driver_api_version >= API_VERSION_1_1
}

/// The persistent identifiers of the adapter.
///
/// They are part of the core from version 1.1 on: nothing is returned for
/// an older driver, or where the properties were not obtained. The bytes
/// are those of the driver structure.
pub fn get_device_uuids(adapter: &Adapter) -> (uuids: Option<DeviceUuids>)
    ensures
        uuids == adapter.spec_device_uuids(),
{
    if !supports_device_uuids(adapter) {
        return None;
    }
    match adapter.id_properties {
        Some(p) => Some(DeviceUuids { driver_uuid: p.driver_uuid, device_uuid: p.device_uuid }),
        None => None,
    }
}

/// Tests whether every instance extension that external memory needs was
/// enabled on the instance of the adapter.
pub fn has_instance_prerequisites(adapter: &Adapter) -> (all: bool)
    ensures
        all == adapter.has_instance_prerequisites(),
{
    contains_all(&adapter.instance_extensions, &required_instance_extensions())
}

/// The instance extensions that external memory needs and that were not
/// enabled on the instance of the adapter.
pub fn missing_instance_extensions(adapter: &Adapter) -> (missing: Vec<String>)
    ensures
        names_of(missing@) == missing_from(
            names_of(adapter.instance_extensions@),
            instance_extension_names(),
        ),
        missing@.len() == 0 <==> adapter.has_instance_prerequisites(),
{
    missing_names(&adapter.instance_extensions, &required_instance_extensions())
}

/// Tests whether handles of this type can be used with the adapter: the
/// instance has every extension that external memory needs, and the
/// physical device offers every device extension of the type.
pub fn supports_memory_type(adapter: &Adapter, ty: ExternalMemoryType) -> (supported: bool)
    ensures
        supported == adapter.spec_supports_memory_type(ty),
{
    // Test if required instance extensions are enabled.
    if !has_instance_prerequisites(adapter) {
        return false;
    }
    offers_all(adapter, &required_device_extensions()) && offers_all(
        adapter,
        &memory_type_extensions(ty),
    )
}

/// What may be done with handles of this type on the adapter: import and
/// export where the type is supported, nothing where anything is missing.
pub fn external_memory_capabilities(adapter: &Adapter, ty: ExternalMemoryType) -> (caps:
    ExternalMemoryCapabilities)
    ensures
        caps.import == adapter.spec_supports_memory_type(ty),
        caps.export == adapter.spec_supports_memory_type(ty),
{
    if supports_memory_type(adapter, ty) {
        ExternalMemoryCapabilities::import_export()
    } else {
        ExternalMemoryCapabilities::empty()
    }
}

/// What a native device is created with.
///
/// One queue of one family is asked for, at the highest priority.
#[derive(Clone, Debug)]
pub struct DeviceRequest {
    /// The device extensions to enable.
    pub extensions: Vec<String>,
    /// The family of the one queue: always the first.
    pub queue_family_index: u32,
    /// The number of queues: always one.
    pub queue_count: u32,
    /// The queue that is taken of the family: always the first.
    pub queue_index: u32,
    /// The device belongs to whoever wraps it: always true.
    pub handle_is_owned: bool,
}

/// The device extensions that are enabled for a memory type: those of the
/// graphics layer, then those of external memory, then those of the type.
pub open spec fn spec_device_extensions(baseline: Seq<Seq<char>>, ty: ExternalMemoryType) -> Seq<
    Seq<char>,
> {
    baseline + device_extension_names() + memory_type_extension_names(ty)
}

/// The device extensions that a request on this adapter enables, if the
/// adapter can have such a device at all.
pub open spec fn spec_negotiated_extensions(
    adapter: Adapter,
    baseline: Seq<String>,
    ty: ExternalMemoryType,
) -> Option<Seq<Seq<char>>> {
    if adapter.offers_memory_type(ty) {
        Some(spec_device_extensions(names_of(baseline), ty))
    } else {
        None
    }
}

impl DeviceRequest {
    /// The request is the one that is made of this adapter for this
    /// baseline and memory type.
    pub open spec fn serves(self, adapter: Adapter, baseline: Seq<String>, ty: ExternalMemoryType) -> bool {
        &&& Some(names_of(self.extensions@)) == spec_negotiated_extensions(adapter, baseline, ty)
        &&& self.queue_family_index == 0
        &&& self.queue_count == 1
        &&& self.queue_index == 0
        &&& self.handle_is_owned
    }
}

/// Whether `bootstrap` is what a request on this adapter begins with: the
/// wait for the native layer, with the request that it is to serve, where
/// the physical device offers every extension of the memory type, and the
/// failure for want of them where it does not.
pub open spec fn spec_requested(
    adapter: Adapter,
    baseline: Seq<String>,
    ty: ExternalMemoryType,
    bootstrap: Bootstrap,
) -> bool {
    if adapter.offers_memory_type(ty) {
        bootstrap matches Bootstrap::Bootstrapping(r) && r.serves(adapter, baseline, ty)
    } else {
        bootstrap == Bootstrap::Failed(RequestDeviceError::MissingDeviceExtensions)
    }
}

/// Prepares the creation of a device that can share memory of one type.
///
/// `baseline` holds the device extensions that the graphics layer needs
/// for the features asked of it. The instance of the adapter must have been
/// created with the extensions of [`required_instance_extensions`]: test
/// that with [`has_instance_prerequisites`] first. Where the physical
/// device lacks an extension of the memory type, no device is asked for.
pub fn open_with_external_memory(
    adapter: &Adapter,
    baseline: &Vec<String>,
    ty: ExternalMemoryType,
) -> (request: Result<DeviceRequest, RequestDeviceError>)
    requires
        adapter.has_instance_prerequisites(),
    ensures
        request.is_ok() <==> adapter.offers_memory_type(ty),
        request matches Ok(r) ==> r.serves(*adapter, baseline@, ty),
        request matches Err(e) ==> e == RequestDeviceError::MissingDeviceExtensions,
{
    let device = required_device_extensions();
    let typed = memory_type_extensions(ty);
    if !offers_all(adapter, &device) || !offers_all(adapter, &typed) {
        return Err(RequestDeviceError::MissingDeviceExtensions);
    }
    let mut extensions: Vec<String> = baseline.clone();
    // Extensions for external memory
    extend_names(&mut extensions, &device);
    extend_names(&mut extensions, &typed);
    Ok(
        DeviceRequest {
            extensions,
            queue_family_index: 0,
            queue_count: 1,
            queue_index: 0,
            handle_is_owned: true,
        },
    )
}

/// Begins the creation of a device that can share memory of one type: see
/// [`open_with_external_memory`] for what is asked of the native layer.
/// The bootstrap has failed at once where the physical device lacks an
/// extension of the memory type.
pub fn request_device(adapter: &Adapter, baseline: &Vec<String>, ty: ExternalMemoryType) -> (bootstrap:
    Bootstrap)
    requires
        adapter.has_instance_prerequisites(),
    ensures
        spec_requested(*adapter, baseline@, ty, bootstrap),
{
    match open_with_external_memory(adapter, baseline, ty) {
        Ok(request) => Bootstrap::Bootstrapping(request),
        Err(error) => Bootstrap::Failed(error),
    }
}

/// Two requests with the same inputs enable the same device extensions:
/// what is negotiated depends on the names that the instance has enabled,
/// on those that the physical device offers, on the baseline and on the
/// memory type, and on nothing else.
pub proof fn negotiation_is_determined(
    first: Adapter,
    second: Adapter,
    first_baseline: Seq<String>,
    second_baseline: Seq<String>,
    ty: ExternalMemoryType,
)
    requires
        names_of(first.instance_extensions@) == names_of(second.instance_extensions@),
        first.offered() == second.offered(),
        names_of(first_baseline) == names_of(second_baseline),
    ensures
        spec_negotiated_extensions(first, first_baseline, ty) == spec_negotiated_extensions(
            second,
            second_baseline,
            ty,
        ),
        first.spec_supports_memory_type(ty) == second.spec_supports_memory_type(ty),
{
}

/// Support is conjunctive: where one extension of either scope is absent,
/// handles of the type cannot be used.
pub proof fn support_needs_every_extension(adapter: Adapter, ty: ExternalMemoryType, name: Seq<char>)
    requires
        instance_extension_names().contains(name) && !names_of(
            adapter.instance_extensions@,
        ).contains(name) || (device_extension_names().contains(name)
            || memory_type_extension_names(ty).contains(name)) && !adapter.offered().contains(name),
    ensures
        !adapter.spec_supports_memory_type(ty),
{
    if instance_extension_names().contains(name) && !names_of(
        adapter.instance_extensions@,
    ).contains(name) {
        let j = choose|j: int|
            0 <= j < instance_extension_names().len() && instance_extension_names()[j] == name;
        assert(!names_of(adapter.instance_extensions@).contains(instance_extension_names()[j]));
    } else if device_extension_names().contains(name) {
        let j = choose|j: int|
            0 <= j < device_extension_names().len() && device_extension_names()[j] == name;
        assert(!adapter.offered().contains(device_extension_names()[j]));
    } else {
        let list = memory_type_extension_names(ty);
        let j = choose|j: int| 0 <= j < list.len() && list[j] == name;
        assert(!adapter.offered().contains(list[j]));
    }
}

/// What a device holds beyond the native device to share memory.
#[derive(Clone, Debug)]
pub struct Inner {
    /// The formats that the device can share.
    pub supported_drm_formats: FormatTable,
}

impl Inner {
    /// The state of a new device, from the modifiers that the physical
    /// device reported for the reference format.
    pub fn new(modifiers: &Vec<ModifierProperties>) -> (inner: Inner)
        ensures
            inner.supported_drm_formats@ == table_of_modifiers(modifiers@),
    {
        Inner { supported_drm_formats: FormatTable::from_modifiers(modifiers) }
    }
}

} // verus!
