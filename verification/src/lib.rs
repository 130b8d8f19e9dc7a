//! Linux-specific capability negotiation for a cross-API graphics layer:
//! DRM node identity, persistent device and driver UUIDs, and external
//! memory (dmabuf) support for Vulkan and EGL backed adapters.
//!
//! The crate decides; it asks nothing of the native layer itself. Every
//! function takes what the native layer reported as plain values and states
//! exactly what it answers for them.

use crate::imp::DeviceInner;
use vstd::prelude::*;

pub mod adapter;
pub mod formats;
pub mod imp;
pub mod instance;
pub mod names;

verus! {

/// A kind of platform handle through which memory can be shared.
#[derive(Clone, Copy, Debug, PartialEq, Eq, Structural)]
pub enum ExternalMemoryType {
    /// A Linux dmabuf file descriptor.
    Dmabuf,
}

/// Describes what operations may be performed on external memory.
#[derive(Clone, Copy, Debug, PartialEq, Eq, Structural)]
pub struct ExternalMemoryCapabilities {
    /// Memory import is supported.
    pub import: bool,
    /// Memory export is supported.
    pub export: bool,
}

/// Bit that stands for import in [`ExternalMemoryCapabilities::bits`].
pub const IMPORT_BIT: u16 = 1;

/// Bit that stands for export in [`ExternalMemoryCapabilities::bits`].
pub const EXPORT_BIT: u16 = 2;

/// Why no device could be had.
#[derive(Clone, Copy, Debug, PartialEq, Eq, Structural)]
pub enum RequestDeviceError {
    /// The adapter belongs to a backend that cannot share memory.
    UnsupportedBackend,
    /// The adapter lacks a device extension that the memory type needs.
    MissingDeviceExtensions,
    /// The native layer refused to create the device.
    Native,
}

impl ExternalMemoryCapabilities {
    /// The numeric form of the set: the sum of the bits of its members.
    pub open spec fn spec_bits(self) -> int {
        (if self.import { 1int } else { 0int }) + (if self.export { 2int } else { 0int })
    }

    /// No operation is supported.
    pub fn empty() -> (caps: Self)
        ensures
            !caps.import,
            !caps.export,
    {
        ExternalMemoryCapabilities { import: false, export: false }
    }

    /// Memory import is supported.
    pub fn import() -> (caps: Self)
        ensures
            caps.import,
            !caps.export,
    {
        ExternalMemoryCapabilities { import: true, export: false }
    }

    /// Memory export is supported.
    pub fn export() -> (caps: Self)
        ensures
            !caps.import,
            caps.export,
    {
        ExternalMemoryCapabilities { import: false, export: true }
    }

    /// Memory import and export is supported.
    pub fn import_export() -> (caps: Self)
        ensures
            caps.import,
            caps.export,
    {
        ExternalMemoryCapabilities { import: true, export: true }
    }

    /// The set as a number: bit 0 for import, bit 1 for export.
    pub fn bits(&self) -> (bits: u16)
        ensures
            bits == self.spec_bits(),
    {
        let low: u16 = if self.import { IMPORT_BIT } else { 0 };
        let high: u16 = if self.export { EXPORT_BIT } else { 0 };
        low + high
    }

    /// The set that a number stands for, if it names known operations only.
    pub fn from_bits(bits: u16) -> (caps: Option<Self>)
        ensures
            caps.is_some() <==> bits <= 3,
            caps matches Some(c) ==> c.spec_bits() == bits,
    {
        if bits > 3 {
            None
        } else {
            Some(ExternalMemoryCapabilities { import: bits == 1 || bits == 3, export: bits >= 2 })
        }
    }

    /// True if no operation is supported.
    pub fn is_empty(&self) -> (none: bool)
        ensures
            none == (!self.import && !self.export),
    {
        !self.import && !self.export
    }

    /// True if every operation of `other` is supported by `self`.
    pub fn contains(&self, other: Self) -> (all: bool)
        ensures
            all == ((other.import ==> self.import) && (other.export ==> self.export)),
    {
        (!other.import || self.import) && (!other.export || self.export)
    }

    /// The operations supported by either set.
    pub fn union(self, other: Self) -> (caps: Self)
        ensures
            caps.import == (self.import || other.import),
            caps.export == (self.export || other.export),
    {
        ExternalMemoryCapabilities {
            import: self.import || other.import,
            export: self.export || other.export,
        }
    }

    /// The operations supported by both sets.
    pub fn intersection(self, other: Self) -> (caps: Self)
        ensures
            caps.import == (self.import && other.import),
            caps.export == (self.export && other.export),
    {
        ExternalMemoryCapabilities {
            import: self.import && other.import,
            export: self.export && other.export,
        }
    }
}

/// `wgpu::Device`, the logical device of the graphics layer. Nothing is
/// known of what it holds: it is carried along with what this crate adds.
#[verifier::external_type_specification]
#[verifier::external_body]
pub struct ExDevice(wgpu::Device);

/// A device capable of importing and exporting external memory objects.
#[derive(Debug)]
pub struct ExternalMemoryDevice {
    device: wgpu::Device,
    inner: DeviceInner,
}

impl ExternalMemoryDevice {
    /// The device that the type stands for.
    pub closed spec fn spec_device(&self) -> wgpu::Device {
        self.device
    }

    /// What the device holds to share memory.
    pub closed spec fn spec_inner(&self) -> DeviceInner {
        self.inner
    }

    /// Joins a device that the native layer created with what a finished
    /// bootstrap holds for it.
    pub fn new(device: wgpu::Device, inner: DeviceInner) -> (joined: Self)
        ensures
            joined.spec_device() == device,
            joined.spec_inner() == inner,
    {
        ExternalMemoryDevice { device, inner }
    }

    /// The device of the graphics layer.
    pub fn device(&self) -> (device: &wgpu::Device)
        ensures
            *device == self.spec_device(),
    {
        &self.device
    }

    /// What the device holds to share memory.
    pub fn inner(&self) -> (inner: &DeviceInner)
        ensures
            *inner == self.spec_inner(),
    {
        &self.inner
    }
}

} // verus!
