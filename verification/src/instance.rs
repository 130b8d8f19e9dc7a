//! The configuration with which native instances are created.

use vstd::prelude::*;

verus! {

/// What is asked of an instance beyond its plain work.
#[derive(Clone, Copy, Debug, PartialEq, Eq, Structural)]
pub struct InstanceFlags {
    /// Generate debug information in shaders and objects.
    pub debug: bool,
    /// Enable validation, if possible.
    pub validation: bool,
}

impl InstanceFlags {
    /// Nothing is asked for.
    pub fn empty() -> (flags: Self)
        ensures
            !flags.debug,
            !flags.validation,
    {
        InstanceFlags { debug: false, validation: false }
    }

    /// The flags of a configuration: a debug configuration asks for debug
    /// information and validation, a release configuration for neither.
    pub fn for_configuration(debug: bool) -> (flags: Self)
        ensures
            flags.debug == debug,
            flags.validation == debug,
    {
        InstanceFlags { debug, validation: debug }
    }
}

/// Name under which instances are created.
pub open spec fn instance_name() -> Seq<char> {
    "wgpu-drm"@
}

/// How an instance is to be created.
#[derive(Clone, Debug)]
pub struct InstanceDescriptor {
    /// Name of the application.
    pub name: String,
    /// What the instance is asked for.
    pub flags: InstanceFlags,
}

/// The descriptor with which every backend's instance is created. The
/// configuration is an argument, so both can be had from one build.
pub fn instance_desc(debug: bool) -> (desc: InstanceDescriptor)
    ensures
        desc.name@ == instance_name(),
        desc.flags.debug == debug,
        desc.flags.validation == debug,
{
    InstanceDescriptor { name: "wgpu-drm".to_owned(), flags: InstanceFlags::for_configuration(debug) }
}

} // verus!
