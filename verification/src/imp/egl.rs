//! The EGL backend: which extensions each capability needs, and the order
//! in which the native layer is asked for the DRM nodes of an adapter.

use crate::adapter::{DeviceUuids, DrmInfo};
use crate::names::{
    contains_all, contains_any, contains_name, has_all, has_any, names_in, names_of, split_names,
};
use vstd::prelude::*;

verus! {

/// Names the extension string in a string query.
pub const EGL_EXTENSIONS: i32 = 0x3055;

/// Names the device of a display in an attribute query.
pub const EGL_DEVICE_EXT: i32 = 0x322C;

/// Names the path of the primary node in a device string query.
pub const EGL_DRM_DEVICE_FILE_EXT: i32 = 0x3233;

/// Names the path of the render node in a device string query.
pub const EGL_DRM_RENDER_NODE_FILE_EXT: i32 = 0x3377;

/// Names the device identifier in a byte query.
pub const DEVICE_UUID_EXT: i32 = 0x9597;

/// Names the driver identifier in a byte query.
pub const DRIVER_UUID_EXT: i32 = 0x9598;

/// The major number in a device number, as Linux packs it: bits 8 to 19,
/// and above them bits 44 to 63.
pub open spec fn spec_major(dev: u64) -> u64 {
    ((dev >> 32) & 0xffff_f000) | ((dev >> 8) & 0x0000_0fff)
}

/// The minor number in a device number, as Linux packs it: bits 0 to 7,
/// and above them bits 20 to 43.
pub open spec fn spec_minor(dev: u64) -> u64 {
    ((dev >> 12) & 0xffff_ff00) | (dev & 0x0000_00ff)
}

/// `nix::sys::stat::major`, which takes the major number out of a device
/// number by the shifts and masks of [`spec_major`].
#[verifier::external_body]
fn major(dev: u64) -> (number: u64)
    ensures
        number == spec_major(dev),
{
    nix::sys::stat::major(dev)
}

/// `nix::sys::stat::minor`, which takes the minor number out of a device
/// number by the shifts and masks of [`spec_minor`].
#[verifier::external_body]
fn minor(dev: u64) -> (number: u64)
    ensures
        number == spec_minor(dev),
{
    nix::sys::stat::minor(dev)
}

/// The numbers of the node behind a device file, from the device number
/// that a file status holds for it. The same device number gives the same
/// pair, whenever it is asked.
pub fn device_numbers(rdev: u64) -> (numbers: (u64, u64))
    ensures
        numbers == (spec_major(rdev), spec_minor(rdev)),
{
    (major(rdev), minor(rdev))
}

/// The client extensions without which no device can be queried.
pub open spec fn device_query_names() -> Seq<Seq<char>> {
    seq!["EGL_EXT_device_base"@, "EGL_EXT_device_query"@]
}

/// Name of the device extension that reports the primary node.
pub open spec fn device_drm_name() -> Seq<char> {
    "EGL_EXT_device_drm"@
}

/// Name of the device extension that reports the render node.
pub open spec fn device_drm_render_node_name() -> Seq<char> {
    "EGL_EXT_device_drm_render_node"@
}

/// The names under which the extension behind the identifiers is looked
/// for. It is looked up under two names, which are spelled alike.
pub open spec fn uuid_extension_names() -> Seq<Seq<char>> {
    seq!["GL_EXT_memory_object"@, "GL_EXT_memory_object"@]
}

/// The client extensions without which no device can be queried.
pub fn device_query_extensions() -> (list: Vec<String>)
    ensures
        names_of(list@) == device_query_names(),
{
    let mut list: Vec<String> = Vec::new();
    list.push("EGL_EXT_device_base".to_owned());
    list.push("EGL_EXT_device_query".to_owned());
    assert(names_of(list@) =~= device_query_names());
    list
}

/// The names under which the extension behind the identifiers is looked for.
pub fn uuid_extensions() -> (list: Vec<String>)
    ensures
        names_of(list@) == uuid_extension_names(),
{
    let mut list: Vec<String> = Vec::new();
    list.push("GL_EXT_memory_object".to_owned());
    list.push("GL_EXT_memory_object".to_owned());
    assert(names_of(list@) =~= uuid_extension_names());
    list
}

/// Which nodes a device reports: nothing where it lacks the extension for
/// the primary node, else whether it also reports a render node.
pub open spec fn spec_reported_nodes(device_extensions: Seq<Seq<char>>) -> Option<bool> {
    if device_extensions.contains(device_drm_name()) {
        Some(device_extensions.contains(device_drm_render_node_name()))
    } else {
        None
    }
}

/// Tests whether the device behind a display can be queried: whether the
/// client has both extensions for it.
pub fn supports_device_query(client_extensions: &Vec<String>) -> (supported: bool)
    ensures
        supported == has_all(names_of(client_extensions@), device_query_names()),
{
    contains_all(client_extensions, &device_query_extensions())
}

/// Says which nodes a device with these extensions reports: nothing where
/// it lacks the extension for the primary node, else whether it also
/// reports a render node.
pub fn reported_nodes(device_extensions: &Vec<String>) -> (has_render: Option<bool>)
    ensures
        has_render == spec_reported_nodes(names_of(device_extensions@)),
{
    if !contains_name(device_extensions, &"EGL_EXT_device_drm".to_owned()) {
        return None;
    }
    Some(contains_name(device_extensions, &"EGL_EXT_device_drm_render_node".to_owned()))
}

/// The identifiers of an adapter, as the GL wrote them.
#[derive(Clone, Copy, Debug)]
pub struct IdBytes {
    /// What was written for [`DEVICE_UUID_EXT`].
    pub device_uuid: [u8; 16],
    /// What was written for [`DRIVER_UUID_EXT`].
    pub driver_uuid: [u8; 16],
}

/// An EGL adapter, as far as this crate reads it.
#[derive(Clone, Debug)]
pub struct Adapter {
    /// The extensions of the GL context of the adapter, or nothing if the
    /// adapter has no EGL instance.
    pub gl_extensions: Option<Vec<String>>,
    /// The identifiers, where they were read. They are read only if the
    /// context has the extension behind them.
    pub id_bytes: Option<IdBytes>,
    /// The DRM nodes that a finished [`DrmProbe`] found, if any.
    pub drm_nodes: Option<DrmInfo>,
}

impl Adapter {
    /// The GL context has the extension behind the identifiers.
    pub open spec fn supports_uuids(self) -> bool {
        self.gl_extensions matches Some(list) && has_any(names_of(list@), uuid_extension_names())
    }

    /// What [`get_device_uuids`] answers.
    pub open spec fn spec_device_uuids(self) -> Option<DeviceUuids> {
        if self.supports_uuids() {
            match self.id_bytes {
                Some(b) => Some(
                    DeviceUuids { driver_uuid: b.driver_uuid, device_uuid: b.device_uuid },
                ),
                None => None,
            }
        } else {
            None
        }
    }

    /// What [`get_drm_info`] answers.
    pub open spec fn spec_drm_info(self) -> Option<DrmInfo> {
        match self.drm_nodes {
            Some(i) => DrmInfo::spec_from_nodes(i.primary_node, i.render_node),
            None => None,
        }
    }
}

/// Tests whether the identifiers of the adapter can be read: whether its
/// GL context has the extension behind them, under either name.
pub fn supports_device_uuids(adapter: &Adapter) -> (supported: bool)
    ensures
        supported == adapter.supports_uuids(),
{
    match &adapter.gl_extensions {
        Some(list) => contains_any(list, &uuid_extensions()),
        None => false,
    }
}

/// The persistent identifiers of the adapter.
///
/// Nothing is returned where the adapter has no EGL instance, where its GL
/// context lacks the extension, or where the identifiers were not read.
/// The bytes are those that the GL wrote.
pub fn get_device_uuids(adapter: &Adapter) -> (uuids: Option<DeviceUuids>)
    ensures
        uuids == adapter.spec_device_uuids(),
{
    if !supports_device_uuids(adapter) {
        return None;
    }
    match adapter.id_bytes {
        Some(b) => Some(DeviceUuids { driver_uuid: b.driver_uuid, device_uuid: b.device_uuid }),
        None => None,
    }
}

/// The DRM nodes of the adapter, as a finished probe found them. A value
/// that names neither node is nothing.
pub fn get_drm_info(adapter: &Adapter) -> (info: Option<DrmInfo>)
    ensures
        info == adapter.spec_drm_info(),
        info matches Some(i) ==> i.wf(),
{
    match adapter.drm_nodes {
        Some(i) => DrmInfo::from_nodes(i.primary_node, i.render_node),
        None => None,
    }
}

/// What the native layer is to be asked next while the DRM nodes of an
/// adapter are looked for.
#[derive(Clone, Debug)]
pub enum DrmQuery {
    /// The client extension string: a string query for [`EGL_EXTENSIONS`]
    /// without a display.
    ClientExtensions,
    /// The device behind the display of the adapter: an attribute query for
    /// [`EGL_DEVICE_EXT`].
    DisplayDevice,
    /// A string of that device, by the name given.
    DeviceString { name: i32 },
    /// The status of the device file at the path.
    Stat { path: String },
    /// Nothing: the probe is over and this is what it found.
    Finished(Option<DrmInfo>),
}

/// What the native layer answered.
#[derive(Clone, Debug)]
pub enum DrmAnswer {
    /// The text that a string query gave, or nothing where it gave none:
    /// the adapter has no EGL instance, the entry point is missing, or the
    /// result was null.
    Text(Option<String>),
    /// What the attribute query returned, and the device that it wrote.
    Device { status: u32, device: isize },
    /// The device number in the file status, or nothing where the status
    /// could not be had.
    Status(Option<u64>),
    /// The query could not be made at all.
    Unavailable,
}

/// How far the search for the DRM nodes of an adapter has come.
#[derive(Clone, Debug)]
pub enum DrmProbe {
    /// The client extensions were asked for.
    AwaitClientExtensions,
    /// The device of the display was asked for.
    AwaitDisplayDevice,
    /// The extensions of the device were asked for.
    AwaitDeviceExtensions,
    /// The path of the primary node was asked for.
    AwaitPrimaryPath { has_render: bool },
    /// The path of the render node was asked for.
    AwaitRenderPath { primary_path: String },
    /// The status of the primary node was asked for.
    AwaitPrimaryStatus { render_path: Option<String> },
    /// The status of the render node was asked for.
    AwaitRenderStatus { primary_node: Option<(u64, u64)> },
    /// The probe is over.
    Done(Option<DrmInfo>),
}

impl DrmAnswer {
    /// The text of an answer; an answer of another kind holds none.
    pub open spec fn text(self) -> Option<String> {
        match self {
            DrmAnswer::Text(text) => text,
            _ => None,
        }
    }

    /// The device of an answer: the query must have succeeded, with 1, and
    /// have written a device other than 0, which stands for none.
    pub open spec fn device(self) -> Option<isize> {
        match self {
            DrmAnswer::Device { status, device } => if status == 1 && device != 0 {
                Some(device)
            } else {
                None
            },
            _ => None,
        }
    }

    /// The numbers of the node whose status an answer holds.
    pub open spec fn node(self) -> Option<(u64, u64)> {
        match self {
            DrmAnswer::Status(Some(rdev)) => Some((spec_major(rdev), spec_minor(rdev))),
            _ => None,
        }
    }
}

/// The end of a probe with a result.
pub open spec fn finished(info: Option<DrmInfo>) -> (DrmProbe, DrmQuery) {
    (DrmProbe::Done(info), DrmQuery::Finished(info))
}

/// The state after an answer, and what is to be asked next.
///
/// The probe ends without a result as soon as an extension that the next
/// query needs is absent or a query gives nothing; only the render node is
/// optional. The status of a file is asked for only once both the client
/// and the device have the extensions and the device has named a path.
pub open spec fn spec_step(state: DrmProbe, answer: DrmAnswer) -> (DrmProbe, DrmQuery) {
    match state {
        DrmProbe::AwaitClientExtensions => match answer.text() {
            Some(text) => if has_all(names_in(text@), device_query_names()) {
                (DrmProbe::AwaitDisplayDevice, DrmQuery::DisplayDevice)
            } else {
                finished(None)
            },
            None => finished(None),
        },
        DrmProbe::AwaitDisplayDevice => match answer.device() {
            Some(_) => (
                DrmProbe::AwaitDeviceExtensions,
                DrmQuery::DeviceString { name: EGL_EXTENSIONS },
            ),
            None => finished(None),
        },
        DrmProbe::AwaitDeviceExtensions => match answer.text() {
            Some(text) => match spec_reported_nodes(names_in(text@)) {
                Some(has_render) => (
                    DrmProbe::AwaitPrimaryPath { has_render },
                    DrmQuery::DeviceString { name: EGL_DRM_DEVICE_FILE_EXT },
                ),
                None => finished(None),
            },
            None => finished(None),
        },
        DrmProbe::AwaitPrimaryPath { has_render } => match answer.text() {
            Some(path) => if has_render {
                (
                    DrmProbe::AwaitRenderPath { primary_path: path },
                    DrmQuery::DeviceString { name: EGL_DRM_RENDER_NODE_FILE_EXT },
                )
            } else {
                (DrmProbe::AwaitPrimaryStatus { render_path: None }, DrmQuery::Stat { path })
            },
            None => finished(None),
        },
        DrmProbe::AwaitRenderPath { primary_path } => (
            DrmProbe::AwaitPrimaryStatus { render_path: answer.text() },
            DrmQuery::Stat { path: primary_path },
        ),
        DrmProbe::AwaitPrimaryStatus { render_path } => match render_path {
            Some(path) => (
                DrmProbe::AwaitRenderStatus { primary_node: answer.node() },
                DrmQuery::Stat { path },
            ),
            None => finished(DrmInfo::spec_from_nodes(answer.node(), None)),
        },
        DrmProbe::AwaitRenderStatus { primary_node } => finished(
            DrmInfo::spec_from_nodes(primary_node, answer.node()),
        ),
        DrmProbe::Done(info) => finished(info),
    }
}

impl DrmProbe {
    /// A result that the probe holds names a node.
    pub open spec fn wf(self) -> bool {
        self matches DrmProbe::Done(Some(info)) ==> info.wf()
    }

    /// The most answers that the probe still takes before it is over.
    pub open spec fn remaining(self) -> nat {
        match self {
            DrmProbe::AwaitClientExtensions => 7,
            DrmProbe::AwaitDisplayDevice => 6,
            DrmProbe::AwaitDeviceExtensions => 5,
            DrmProbe::AwaitPrimaryPath { .. } => 4,
            DrmProbe::AwaitRenderPath { .. } => 3,
            DrmProbe::AwaitPrimaryStatus { .. } => 2,
            DrmProbe::AwaitRenderStatus { .. } => 1,
            DrmProbe::Done(_) => 0,
        }
    }

    /// No file status was asked for yet, nor a path.
    pub open spec fn before_device_strings(self) -> bool {
        self is AwaitClientExtensions || self is AwaitDisplayDevice || self is AwaitDeviceExtensions
    }

    /// Begins a probe: the first thing to ask for is the client extensions.
    pub fn start() -> (begun: (DrmProbe, DrmQuery))
        ensures
            begun.0 is AwaitClientExtensions,
            begun.1 is ClientExtensions,
    {
        (DrmProbe::AwaitClientExtensions, DrmQuery::ClientExtensions)
    }

    /// Takes the answer to the last query and says what to ask next.
    pub fn step(self, answer: DrmAnswer) -> (next: (DrmProbe, DrmQuery))
        ensures
            next == spec_step(self, answer),
            self.wf() ==> next.0.wf(),
            self.wf() ==> (next.1 matches DrmQuery::Finished(Some(info)) ==> info.wf()),
            self.before_device_strings() ==> !(next.1 is Stat),
            next.0 is Done <==> next.1 is Finished,
            self is Done || next.0.remaining() < self.remaining(),
    {
        match self {
            DrmProbe::AwaitClientExtensions => match text_of(answer) {
                Some(text) => if supports_device_query(&split_names(text.as_str())) {
                    (DrmProbe::AwaitDisplayDevice, DrmQuery::DisplayDevice)
                } else {
                    finish(None)
                },
                None => finish(None),
            },
            DrmProbe::AwaitDisplayDevice => match device_of(answer) {
                Some(_) => (
                    DrmProbe::AwaitDeviceExtensions,
                    DrmQuery::DeviceString { name: EGL_EXTENSIONS },
                ),
                // No device available, could be software EGL.
                None => finish(None),
            },
            DrmProbe::AwaitDeviceExtensions => match text_of(answer) {
                // Check the device extensions.
                Some(text) => match reported_nodes(&split_names(text.as_str())) {
                    Some(has_render) => (
                        DrmProbe::AwaitPrimaryPath { has_render },
                        DrmQuery::DeviceString { name: EGL_DRM_DEVICE_FILE_EXT },
                    ),
                    None => finish(None),
                },
                None => finish(None),
            },
            DrmProbe::AwaitPrimaryPath { has_render } => match text_of(answer) {
                Some(path) => if has_render {
                    (
                        DrmProbe::AwaitRenderPath { primary_path: path },
                        DrmQuery::DeviceString { name: EGL_DRM_RENDER_NODE_FILE_EXT },
                    )
                } else {
                    (DrmProbe::AwaitPrimaryStatus { render_path: None }, DrmQuery::Stat { path })
                },
                None => finish(None),
            },
            DrmProbe::AwaitRenderPath { primary_path } => (
                DrmProbe::AwaitPrimaryStatus { render_path: text_of(answer) },
                DrmQuery::Stat { path: primary_path },
            ),
            // stat the paths to get the major and minor numbers
            DrmProbe::AwaitPrimaryStatus { render_path } => match render_path {
                Some(path) => (
                    DrmProbe::AwaitRenderStatus { primary_node: node_of(answer) },
                    DrmQuery::Stat { path },
                ),
                None => finish(DrmInfo::from_nodes(node_of(answer), None)),
            },
            DrmProbe::AwaitRenderStatus { primary_node } => finish(
                DrmInfo::from_nodes(primary_node, node_of(answer)),
            ),
            DrmProbe::Done(info) => finish(info),
        }
    }
}

fn finish(info: Option<DrmInfo>) -> (end: (DrmProbe, DrmQuery))
    ensures
        end == finished(info),
{
    (DrmProbe::Done(info), DrmQuery::Finished(info))
}

fn text_of(answer: DrmAnswer) -> (text: Option<String>)
    ensures
        text == answer.text(),
{
    match answer {
        DrmAnswer::Text(text) => text,
        _ => None,
    }
}

fn device_of(answer: DrmAnswer) -> (device: Option<isize>)
    ensures
        device == answer.device(),
{
    match answer {
        DrmAnswer::Device { status, device } => if status == 1 && device != 0 {
            Some(device)
        } else {
            None
        },
        _ => None,
    }
}

fn node_of(answer: DrmAnswer) -> (node: Option<(u64, u64)>)
    ensures
        node == answer.node(),
{
    match answer {
        DrmAnswer::Status(Some(rdev)) => Some(device_numbers(rdev)),
        _ => None,
    }
}

/// An adapter without the client extensions for device queries has no DRM
/// nodes to report, and its probe ends at once: no device is asked for, no
/// path and no file status.
pub proof fn probe_ends_without_client_extensions(answer: DrmAnswer)
    requires
        answer.text() matches Some(text) ==> !has_all(
            names_in(text@),
            device_query_names(),
        ),
    ensures
        spec_step(DrmProbe::AwaitClientExtensions, answer) == finished(None),
{
}

/// A device without the DRM extension has no DRM nodes to report, and its
/// probe ends at once: no path is asked for and no file status.
pub proof fn probe_ends_without_device_extension(answer: DrmAnswer)
    requires
        answer.text() matches Some(text) ==> !names_in(text@).contains(device_drm_name()),
    ensures
        spec_step(DrmProbe::AwaitDeviceExtensions, answer) == finished(None),
{
}

/// A probe never ends with a result that names no node.
pub proof fn probe_result_names_a_node(state: DrmProbe, answer: DrmAnswer)
    requires
        state.wf(),
    ensures
        spec_step(state, answer).0.wf(),
        spec_step(state, answer).1 matches DrmQuery::Finished(Some(info)) ==> info.wf(),
{
}

/// Every answer brings a probe nearer to its end, so that a probe is over
/// after seven answers at most; and it asks for nothing more exactly when
/// it is over.
pub proof fn probe_comes_to_an_end(state: DrmProbe, answer: DrmAnswer)
    ensures
        state is Done || spec_step(state, answer).0.remaining() < state.remaining(),
        spec_step(state, answer).0 is Done <==> spec_step(state, answer).1 is Finished,
        state.remaining() <= 7,
{
}

/// A finished probe stays finished, with the result that it had.
pub proof fn probe_stays_finished(info: Option<DrmInfo>, answer: DrmAnswer)
    ensures
        spec_step(DrmProbe::Done(info), answer) == finished(info),
{
}

} // verus!
