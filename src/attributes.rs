use vstd::prelude::*;
use crate::error::Error;

verus! {

/// Which auxiliary buffers a context's pixel format carries.
#[derive(Clone, Copy, Debug, PartialEq, Eq, Structural)]
pub struct ContextAttributeFlags {
    pub alpha: bool,
    pub depth: bool,
    pub stencil: bool,
}

impl ContextAttributeFlags {
    /// No alpha, depth or stencil buffer.
    pub fn empty() -> (r: ContextAttributeFlags)
        ensures
            !r.alpha && !r.depth && !r.stencil,
    {
        ContextAttributeFlags { alpha: false, depth: false, stencil: false }
    }

    /// The flags of a pixel format with the given channel sizes: a channel is present when
    /// its size is non-zero.
    pub fn from_sizes(alpha_size: i32, depth_size: i32, stencil_size: i32) -> (r:
        ContextAttributeFlags)
        ensures
            r.alpha == (alpha_size != 0),
            r.depth == (depth_size != 0),
            r.stencil == (stencil_size != 0),
    {
        let mut flags = ContextAttributeFlags::empty();
        flags.alpha = alpha_size != 0;
        flags.depth = depth_size != 0;
        flags.stencil = stencil_size != 0;
        flags
    }
}

/// The GL API family.
#[derive(Clone, Copy, Debug, PartialEq, Eq, Structural)]
pub enum GLApi {
    GL,
    GLES,
}

/// A GL version number.
#[derive(Clone, Copy, Debug, PartialEq, Eq, Structural)]
pub struct GLVersion {
    pub major: u8,
    pub minor: u8,
}

impl GLVersion {
    pub fn new(major: u8, minor: u8) -> (r: GLVersion)
        ensures
            r.major == major,
            r.minor == minor,
    {
        GLVersion { major, minor }
    }
}

/// An API family together with a version.
#[derive(Clone, Copy, Debug, PartialEq, Eq, Structural)]
pub struct GLFlavor {
    pub api: GLApi,
    pub version: GLVersion,
}

/// What a caller asks of a new context.
#[derive(Clone, Copy, Debug, PartialEq, Eq, Structural)]
pub struct ContextAttributes {
    pub flags: ContextAttributeFlags,
    pub flavor: GLFlavor,
}

/// The native profile requested during pixel format selection.
#[derive(Clone, Copy, Debug, PartialEq, Eq, Structural)]
pub enum GLProfile {
    /// The legacy (compatibility) profile, for versions below 3.
    Legacy,
    /// The 3.2 core profile, for versions 3 and above.
    Core,
}

/// The profile that pixel format selection asks for, given the requested attributes.
pub open spec fn profile_for(attributes: ContextAttributes) -> Result<GLProfile, Error> {
    if attributes.flavor.api == GLApi::GLES {
        Err(Error::UnsupportedGLType)
    } else if attributes.flavor.version.major >= 3 {
        Ok(GLProfile::Core)
    } else {
        Ok(GLProfile::Legacy)
    }
}

impl GLProfile {
    /// Chooses the profile for `attributes`; GLES is not offered by this backend.
    pub fn for_attributes(attributes: &ContextAttributes) -> (r: Result<GLProfile, Error>)
        ensures
            r == profile_for(*attributes),
    {
        match attributes.flavor.api {
            GLApi::GLES => Err(Error::UnsupportedGLType),
            GLApi::GL => {
                if attributes.flavor.version.major >= 3 {
                    Ok(GLProfile::Core)
                } else {
                    Ok(GLProfile::Legacy)
                }
            },
        }
    }
}

/// Capability information of a context, fixed once the context exists.
#[derive(Clone, Copy, Debug, PartialEq, Eq, Structural)]
pub struct GLInfo {
    pub attributes: ContextAttributes,
    pub populated: bool,
}

impl GLInfo {
    /// Information recorded from the attributes a context was created with.
    pub fn new(attributes: &ContextAttributes) -> (r: GLInfo)
        ensures
            r.attributes == *attributes,
            !r.populated,
    {
        GLInfo { attributes: *attributes, populated: false }
    }

    /// Marks the information as complete, once the context is current.
    pub fn populate(&mut self)
        ensures
            final(self).attributes == old(self).attributes,
            final(self).populated,
    {
        self.populated = true;
    }
}

} // verus!
