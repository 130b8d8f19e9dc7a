//! The backends, the choice between them, and the way from an adapter to a
//! device.

use crate::adapter::{DeviceUuids, DrmInfo};
use crate::formats::{table_of_modifiers, ModifierProperties};
use crate::{ExternalMemoryCapabilities, ExternalMemoryType, RequestDeviceError};
use vstd::prelude::*;

pub mod egl;
pub mod vulkan;

verus! {

/// A native graphics API behind an adapter.
#[derive(Clone, Copy, Debug, PartialEq, Eq, Structural)]
pub enum Backend {
    /// Vulkan.
    Vulkan,
    /// OpenGL ES on EGL.
    Gles,
}

/// The backend of an adapter, from whether it answered as each backend.
/// An adapter that answered as neither has none, and no capability.
pub fn classify(is_vulkan: bool, is_gles: bool) -> (backend: Option<Backend>)
    ensures
        backend == if is_vulkan {
            Some(Backend::Vulkan)
        } else if is_gles {
            Some(Backend::Gles)
        } else {
            None
        },
{
    if is_vulkan {
        Some(Backend::Vulkan)
    } else if is_gles {
        Some(Backend::Gles)
    } else {
        None
    }
}

/// An adapter of any backend. It belongs to one backend for as long as it
/// lives, and what is asked of it goes to that backend and no other.
#[derive(Clone, Debug)]
pub enum Adapter {
    /// An adapter of the Vulkan backend.
    Vulkan(vulkan::Adapter),
    /// An adapter of the EGL backend.
    Gles(egl::Adapter),
    /// An adapter of a backend that this crate does not know.
    Other,
}

impl Adapter {
    /// The backend of the adapter, if this crate knows it.
    pub open spec fn spec_backend(self) -> Option<Backend> {
        match self {
            Adapter::Vulkan(_) => Some(Backend::Vulkan),
            Adapter::Gles(_) => Some(Backend::Gles),
            Adapter::Other => None,
        }
    }

    /// What [`Adapter::uuids`] answers.
    pub open spec fn spec_uuids(self) -> Option<DeviceUuids> {
        match self {
            Adapter::Vulkan(a) => a.spec_device_uuids(),
            Adapter::Gles(a) => a.spec_device_uuids(),
            Adapter::Other => None,
        }
    }

    /// What [`Adapter::drm_info`] answers.
    pub open spec fn spec_drm_info(self) -> Option<DrmInfo> {
        match self {
            Adapter::Vulkan(a) => a.spec_drm_info(),
            Adapter::Gles(a) => a.spec_drm_info(),
            Adapter::Other => None,
        }
    }

    /// Handles of this type can be used with the adapter.
    pub open spec fn spec_supports_memory_type(self, ty: ExternalMemoryType) -> bool {
        match self {
            Adapter::Vulkan(a) => a.spec_supports_memory_type(ty),
            _ => false,
        }
    }

    /// A device can be asked of the adapter without breaking what the
    /// native layer expects: a Vulkan adapter must come from an instance
    /// with the extensions of external memory.
    pub open spec fn may_request_device(self) -> bool {
        self matches Adapter::Vulkan(a) ==> a.has_instance_prerequisites()
    }

    /// The backend of the adapter, if this crate knows it.
    pub fn backend(&self) -> (backend: Option<Backend>)
        ensures
            backend == self.spec_backend(),
    {
        match self {
            Adapter::Vulkan(_) => Some(Backend::Vulkan),
            Adapter::Gles(_) => Some(Backend::Gles),
            Adapter::Other => None,
        }
    }

    /// The adapter as one of the Vulkan backend, if it is one.
    pub fn as_vulkan(&self) -> (adapter: Option<&vulkan::Adapter>)
        ensures
            adapter.is_some() <==> self.spec_backend() == Some(Backend::Vulkan),
            adapter matches Some(a) ==> *self == Adapter::Vulkan(*a),
    {
        match self {
            Adapter::Vulkan(a) => Some(a),
            _ => None,
        }
    }

    /// The adapter as one of the EGL backend, if it is one.
    pub fn as_gles(&self) -> (adapter: Option<&egl::Adapter>)
        ensures
            adapter.is_some() <==> self.spec_backend() == Some(Backend::Gles),
            adapter matches Some(a) ==> *self == Adapter::Gles(*a),
    {
        match self {
            Adapter::Gles(a) => Some(a),
            _ => None,
        }
    }

    /// Calls `probe` on the adapter if it is one of the Vulkan backend, and
    /// on no other: an adapter of another backend gives nothing.
    pub fn probe_as_vulkan<T, F: FnOnce(&vulkan::Adapter) -> T>(&self, probe: F) -> (found: Option<T>)
        requires
            self matches Adapter::Vulkan(a) ==> probe.requires((&a,)),
        ensures
            found.is_some() <==> self.spec_backend() == Some(Backend::Vulkan),
            found matches Some(t) ==> self matches Adapter::Vulkan(a) && probe.ensures((&a,), t),
    {
        match self {
            Adapter::Vulkan(a) => Some(probe(a)),
            _ => None,
        }
    }

    /// Calls `probe` on the adapter if it is one of the EGL backend, and on
    /// no other: an adapter of another backend gives nothing.
    pub fn probe_as_gles<T, F: FnOnce(&egl::Adapter) -> T>(&self, probe: F) -> (found: Option<T>)
        requires
            self matches Adapter::Gles(a) ==> probe.requires((&a,)),
        ensures
            found.is_some() <==> self.spec_backend() == Some(Backend::Gles),
            found matches Some(t) ==> self matches Adapter::Gles(a) && probe.ensures((&a,), t),
    {
        match self {
            Adapter::Gles(a) => Some(probe(a)),
            _ => None,
        }
    }

    /// Returns persistent uuids that may be used to identify the adapter
    /// and driver. An adapter of an unknown backend has none.
    pub fn uuids(&self) -> (uuids: Option<DeviceUuids>)
        ensures
            uuids == self.spec_uuids(),
    {
        match self {
            Adapter::Vulkan(a) => vulkan::get_device_uuids(a),
            Adapter::Gles(a) => egl::get_device_uuids(a),
            Adapter::Other => None,
        }
    }

    /// Returns DRM specific information about the device.
    ///
    /// This will return nothing if any of the required extensions are not
    /// available. What is returned names at least one node.
    pub fn drm_info(&self) -> (info: Option<DrmInfo>)
        ensures
            info == self.spec_drm_info(),
            info matches Some(i) ==> i.wf(),
    {
        match self {
            Adapter::Vulkan(a) => vulkan::get_drm_info(a),
            Adapter::Gles(a) => egl::get_drm_info(a),
            Adapter::Other => None,
        }
    }

    /// Tests whether handles of this type can be used with the adapter.
    pub fn supports_memory_type(&self, ty: ExternalMemoryType) -> (supported: bool)
        ensures
            supported == self.spec_supports_memory_type(ty),
    {
        match self {
            Adapter::Vulkan(a) => vulkan::supports_memory_type(a, ty),
            _ => false,
        }
    }

    /// Tests whether dmabuf handles can be used with the adapter.
    pub fn supports_dmabuf_external_memory(&self) -> (supported: bool)
        ensures
            supported == self.spec_supports_memory_type(ExternalMemoryType::Dmabuf),
    {
        self.supports_memory_type(ExternalMemoryType::Dmabuf)
    }

    /// What may be done with handles of this type on the adapter: import
    /// and export where the type is supported, nothing else.
    pub fn external_memory_capabilities(&self, ty: ExternalMemoryType) -> (caps:
        ExternalMemoryCapabilities)
        ensures
            caps.import == self.spec_supports_memory_type(ty),
            caps.export == self.spec_supports_memory_type(ty),
    {
        match self {
            Adapter::Vulkan(a) => vulkan::external_memory_capabilities(a, ty),
            _ => ExternalMemoryCapabilities::empty(),
        }
    }

    /// Begins the creation of a device that can import and export external
    /// memory handles of one type.
    ///
    /// `baseline` holds the device extensions that the graphics layer needs
    /// for the features asked of it. Only a Vulkan adapter can have such a
    /// device, and only if its physical device offers every extension of
    /// the memory type: otherwise the bootstrap has failed before anything
    /// was asked of the native layer.
    pub fn request_device_with_external_memory(
        &self,
        baseline: &Vec<String>,
        ty: ExternalMemoryType,
    ) -> (bootstrap: Bootstrap)
        requires
            self.may_request_device(),
        ensures
            spec_requested(*self, baseline@, ty, bootstrap),
    {
        match self {
            Adapter::Vulkan(a) => vulkan::request_device(a, baseline, ty),
            _ => Bootstrap::Failed(RequestDeviceError::UnsupportedBackend),
        }
    }
}

/// What a device holds beyond the native device, by backend.
#[derive(Clone, Debug)]
pub enum DeviceInner {
    /// The state of a Vulkan device.
    Vulkan(vulkan::Inner),
    /// An EGL device, which needs none.
    Egl,
}

/// How far the creation of a device has come.
///
/// A device is created once: from `Uninitialized` to `Bootstrapping`, and
/// from there to `Ready` or to `Failed`, where it stays. A failed bootstrap
/// is discarded, and another begins at the adapter.
#[derive(Clone, Debug)]
pub enum Bootstrap {
    /// Nothing was asked for yet.
    Uninitialized,
    /// The native layer is to create a device with this request.
    Bootstrapping(vulkan::DeviceRequest),
    /// The device exists, and this is what it holds to share memory.
    Ready(DeviceInner),
    /// No device was created.
    Failed(RequestDeviceError),
}

/// What the native layer answered to a request for a device.
#[derive(Clone, Debug)]
pub enum NativeOutcome {
    /// The device was created; the physical device reported these
    /// modifiers for the reference format.
    Created(Vec<ModifierProperties>),
    /// The device was not created.
    Rejected,
}

/// Whether `bootstrap` is what a request on this adapter begins with: the
/// wait for the native layer, with the request that it is to serve, or a
/// failure, and which.
pub open spec fn spec_requested(
    adapter: Adapter,
    baseline: Seq<String>,
    ty: ExternalMemoryType,
    bootstrap: Bootstrap,
) -> bool {
    match adapter {
        Adapter::Vulkan(a) => vulkan::spec_requested(a, baseline, ty, bootstrap),
        _ => bootstrap == Bootstrap::Failed(RequestDeviceError::UnsupportedBackend),
    }
}

impl Bootstrap {
    /// The bootstrap is over, one way or the other.
    pub open spec fn is_terminal(self) -> bool {
        self is Ready || self is Failed
    }

    /// Takes the answer of the native layer. A bootstrap that waits for it
    /// becomes ready, with the formats of the device, or fails; any other
    /// stays as it is.
    pub fn complete(self, outcome: NativeOutcome) -> (next: Bootstrap)
        ensures
            !(self is Bootstrapping) ==> next == self,
            self is Bootstrapping ==> match outcome {
                NativeOutcome::Created(list) => next matches Bootstrap::Ready(
                    DeviceInner::Vulkan(inner),
                ) && inner.supported_drm_formats@ == table_of_modifiers(list@),
                NativeOutcome::Rejected => next == Bootstrap::Failed(RequestDeviceError::Native),
            },
            self.is_terminal() ==> next == self,
            !(self is Uninitialized) ==> next.is_terminal(),
            next is Uninitialized ==> self is Uninitialized,
    {
        match self {
            Bootstrap::Bootstrapping(_) => match outcome {
                NativeOutcome::Created(list) => Bootstrap::Ready(
                    DeviceInner::Vulkan(vulkan::Inner::new(&list)),
                ),
                NativeOutcome::Rejected => Bootstrap::Failed(RequestDeviceError::Native),
            },
            other => other,
        }
    }
}

} // verus!
