//! What an adapter can tell about itself: the DRM nodes behind it and the
//! UUIDs that name its device and driver across graphics APIs.

use vstd::prelude::*;

verus! {

/// Length of a UUID.
pub const UUID_LEN: usize = 16;

/// The DRM device nodes of an adapter.
#[derive(Clone, Copy, Debug)]
#[non_exhaustive]
pub struct DrmInfo {
    /// The device major and minor numbers of this adapter's DRM device primary node.
    pub primary_node: Option<(u64, u64)>,
    /// The device major and minor numbers of this adapter's DRM device render node.
    pub render_node: Option<(u64, u64)>,
}

impl DrmInfo {
    /// A value is meaningful only if it names at least one node.
    pub open spec fn wf(self) -> bool {
        self.primary_node.is_some() || self.render_node.is_some()
    }

    /// What [`DrmInfo::from_nodes`] answers.
    pub open spec fn spec_from_nodes(
        primary_node: Option<(u64, u64)>,
        render_node: Option<(u64, u64)>,
    ) -> Option<DrmInfo> {
        if primary_node.is_none() && render_node.is_none() {
            None
        } else {
            Some(DrmInfo { primary_node, render_node })
        }
    }

    /// Joins the two nodes that were resolved. Nothing is returned when
    /// neither node resolved, so a returned value always names a node.
    pub fn from_nodes(primary_node: Option<(u64, u64)>, render_node: Option<(u64, u64)>) -> (info:
        Option<DrmInfo>)
        ensures
            info == Self::spec_from_nodes(primary_node, render_node),
            info matches Some(i) ==> i.wf(),
    {
        if primary_node.is_none() && render_node.is_none() {
            None
        } else {
            Some(DrmInfo { primary_node, render_node })
        }
    }
}

/// Persistent UUIDs that can identify a device and driver across graphics APIs.
///
/// - Vulkan: corresponds to values in `VkPhysicalDeviceIDProperties`.
/// - EGL: read with `glGetUnsignedBytevEXT`.
#[derive(Clone, Copy, Debug)]
pub struct DeviceUuids {
    /// The driver uuid of the adapter.
    ///
    /// - Vulkan: Equivalent to `driverUUID`
    /// - Gles: Equivalent to value of `DRIVER_UUID_EXT`
    pub driver_uuid: [u8; 16],
    /// The device uuid of the adapter.
    ///
    /// - Vulkan: Equivalent to `deviceUUID`
    /// - Gles: Equivalent to value of `DEVICE_UUID_EXT`
    pub device_uuid: [u8; 16],
}

impl DeviceUuids {
    /// Takes the two identifiers from the bytes that the native layer wrote.
    /// Both must be exactly [`UUID_LEN`] bytes long: a shorter or longer
    /// identifier is no UUID, and nothing is returned. The bytes are copied
    /// as they are.
    pub fn from_bytes(driver_uuid: &[u8], device_uuid: &[u8]) -> (uuids: Option<DeviceUuids>)
        ensures
            uuids.is_some() <==> driver_uuid@.len() == UUID_LEN && device_uuid@.len() == UUID_LEN,
            uuids matches Some(u) ==> u.driver_uuid@ == driver_uuid@ && u.device_uuid@
                == device_uuid@,
    {
        if driver_uuid.len() != UUID_LEN || device_uuid.len() != UUID_LEN {
            return None;
        }
        let mut driver: [u8; 16] = [0u8; 16];
        let mut device: [u8; 16] = [0u8; 16];
        let mut i: usize = 0;
        while i < UUID_LEN
            invariant
                i <= UUID_LEN,
                driver_uuid@.len() == UUID_LEN,
                device_uuid@.len() == UUID_LEN,
                forall|k: int| 0 <= k < i ==> driver@[k] == driver_uuid@[k],
                forall|k: int| 0 <= k < i ==> device@[k] == device_uuid@[k],
            decreases UUID_LEN - i,
        {
            driver[i] = driver_uuid[i];
            device[i] = device_uuid[i];
            i += 1;
        }
        assert(driver@ =~= driver_uuid@);
        assert(device@ =~= device_uuid@);
        Some(DeviceUuids { driver_uuid: driver, device_uuid: device })
    }

    /// The driver identifier, always [`UUID_LEN`] bytes.
    pub fn driver_bytes(&self) -> (bytes: Vec<u8>)
        ensures
            bytes@ == self.driver_uuid@,
            bytes@.len() == UUID_LEN,
    {
        copy_uuid(&self.driver_uuid)
    }

    /// The device identifier, always [`UUID_LEN`] bytes.
    pub fn device_bytes(&self) -> (bytes: Vec<u8>)
        ensures
            bytes@ == self.device_uuid@,
            bytes@.len() == UUID_LEN,
    {
        copy_uuid(&self.device_uuid)
    }
}

fn copy_uuid(uuid: &[u8; 16]) -> (bytes: Vec<u8>)
    ensures
        bytes@ == uuid@,
        bytes@.len() == UUID_LEN,
{
    let mut bytes: Vec<u8> = Vec::new();
    let mut i: usize = 0;
    while i < UUID_LEN
        invariant
            i <= UUID_LEN,
            bytes@.len() == i,
            forall|k: int| 0 <= k < i ==> bytes@[k] == uuid@[k],
        decreases UUID_LEN - i,
    {
        bytes.push(uuid[i]);
        i += 1;
    }
    assert(bytes@ =~= uuid@);
    bytes
}

} // verus!
