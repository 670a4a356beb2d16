//! The calls to the engine and its answers.
//!
//! The engine is driven through calls that this crate cannot make itself.
//! Here are the words for them: what can be asked of the engine, and what it
//! can answer.

use crate::error::Error;
use crate::sys::OIDNFormat;
use vstd::prelude::*;

verus! {

/// What a buffer of a session is for.
#[derive(Clone, Copy, Debug, PartialEq, Eq, Structural)]
pub enum BufferRole {
    /// The image to denoise.
    Color,
    /// The denoised image.
    Output,
    /// Auxiliary image: the albedo of the first hit.
    Albedo,
    /// Auxiliary image: the shading normal of the first hit.
    Normal,
}

impl BufferRole {
    /// The name of the filter's image slot for a buffer of this role.
    pub open spec fn spec_slot_name(self) -> Seq<char> {
        match self {
            BufferRole::Color => "color"@,
            BufferRole::Output => "output"@,
            BufferRole::Albedo => "albedo"@,
            BufferRole::Normal => "normal"@,
        }
    }

    /// The name of the filter's image slot for a buffer of this role.
    pub fn slot_name(self) -> (r: &'static str)
        ensures
            r@ == self.spec_slot_name(),
    {
        match self {
            BufferRole::Color => "color",
            BufferRole::Output => "output",
            BufferRole::Albedo => "albedo",
            BufferRole::Normal => "normal",
        }
    }
}

/// Kind of filter.
#[derive(Clone, Copy, Debug, PartialEq, Eq, Structural)]
pub enum FilterKind {
    /// The ray tracing filter.
    Rt,
    /// The filter for ray traced lightmaps.
    RtLightmap,
}

impl FilterKind {
    /// The engine's name for this kind of filter.
    pub open spec fn spec_engine_name(self) -> Seq<char> {
        match self {
            FilterKind::Rt => "RT"@,
            FilterKind::RtLightmap => "RTLightmap"@,
        }
    }

    /// The engine's name for this kind of filter.
    pub fn engine_name(self) -> (r: &'static str)
        ensures
            r@ == self.spec_engine_name(),
    {
        match self {
            FilterKind::Rt => "RT",
            FilterKind::RtLightmap => "RTLightmap",
        }
    }
}

/// A scalar parameter of a filter.
#[derive(Clone, Copy, Debug, PartialEq, Eq, Structural)]
pub enum ScalarParam {
    /// Whether the image has high dynamic range.
    Hdr,
    /// Whether the image is sRGB-encoded.
    Srgb,
    /// Whether the auxiliary images are free of noise.
    CleanAux,
    /// Scale applied to the image before filtering; not a number for the
    /// engine's own choice.
    InputScale,
    /// Trade-off between quality and speed.
    Quality,
    /// Whether a lightmap holds directional data.
    Directional,
}

impl ScalarParam {
    /// The engine's name for this parameter.
    pub open spec fn spec_name(self) -> Seq<char> {
        match self {
            ScalarParam::Hdr => "hdr"@,
            ScalarParam::Srgb => "srgb"@,
            ScalarParam::CleanAux => "cleanAux"@,
            ScalarParam::InputScale => "inputScale"@,
            ScalarParam::Quality => "quality"@,
            ScalarParam::Directional => "directional"@,
        }
    }

    /// The engine's name for this parameter.
    pub fn name(self) -> (r: &'static str)
        ensures
            r@ == self.spec_name(),
    {
        match self {
            ScalarParam::Hdr => "hdr",
            ScalarParam::Srgb => "srgb",
            ScalarParam::CleanAux => "cleanAux",
            ScalarParam::InputScale => "inputScale",
            ScalarParam::Quality => "quality",
            ScalarParam::Directional => "directional",
        }
    }
}

/// Something that the engine hands out and that must be given back.
#[derive(Clone, Copy, Debug, PartialEq, Eq, Structural)]
pub enum Resource {
    /// The filter.
    Filter,
    /// A buffer.
    Buffer(BufferRole),
}

/// A resource that a session holds: what it is, and the handle that the
/// engine gave for it. A handle is never zero.
#[derive(Clone, Copy, Debug, PartialEq, Eq, Structural)]
pub struct Held {
    /// What the handle stands for.
    pub resource: Resource,
    /// The engine's handle.
    pub handle: usize,
}

/// An operation of the engine, without the handles it works on.
#[allow(inconsistent_fields)]
#[derive(Clone, Copy, Debug, PartialEq, Eq, Structural)]
pub enum EngineOp {
    /// Create the filter. The answer holds its handle, or zero.
    CreateFilter { kind: FilterKind },
    /// Allocate a buffer of `byte_size` bytes. The answer holds its handle,
    /// or zero.
    Allocate { role: BufferRole, byte_size: usize },
    /// Copy `byte_size` bytes of the caller's image `image` into the buffer of
    /// this role.
    Upload { role: BufferRole, image: BufferRole, byte_size: usize },
    /// Bind the buffer to the filter's image slot of this role, as an image of
    /// this format and size.
    BindImage { role: BufferRole, format: OIDNFormat, width: u32, height: u32 },
    /// Set a boolean parameter of the filter.
    SetBool { param: ScalarParam, value: bool },
    /// Set an integer parameter of the filter.
    SetInt { param: ScalarParam, value: i32 },
    /// Set a floating-point parameter of the filter, given by the bits of a
    /// 32-bit float.
    SetFloat { param: ScalarParam, bits: u32 },
    /// Commit the parameters of the filter.
    Commit,
    /// Execute the filter.
    Execute,
    /// Wait until the device has finished all work.
    Synchronize,
    /// Copy `byte_size` bytes of the buffer into the caller's image of this
    /// role.
    Download { role: BufferRole, byte_size: usize },
    /// Give a resource back to the engine.
    Release { resource: Resource },
}

impl EngineOp {
    /// The resource that the engine hands out in answer to this operation.
    pub open spec fn acquires(self) -> Option<Resource> {
        match self {
            EngineOp::CreateFilter { .. } => Some(Resource::Filter),
            EngineOp::Allocate { role, .. } => Some(Resource::Buffer(role)),
            _ => None,
        }
    }

    /// The buffer that this operation reads, writes or binds.
    pub open spec fn uses(self) -> Option<BufferRole> {
        match self {
            EngineOp::Upload { role, .. } => Some(role),
            EngineOp::BindImage { role, .. } => Some(role),
            EngineOp::Download { role, .. } => Some(role),
            _ => None,
        }
    }

    /// The resource that the engine hands out in answer to this operation.
    pub(crate) fn acquired_resource(self) -> (r: Option<Resource>)
        ensures
            r == self.acquires(),
    {
        match self {
            EngineOp::CreateFilter { .. } => Some(Resource::Filter),
            EngineOp::Allocate { role, .. } => Some(Resource::Buffer(role)),
            _ => None,
        }
    }

    /// The buffer that this operation reads, writes or binds.
    pub(crate) fn used_buffer(self) -> (r: Option<BufferRole>)
        ensures
            r == self.uses(),
    {
        match self {
            EngineOp::Upload { role, .. } => Some(role),
            EngineOp::BindImage { role, .. } => Some(role),
            EngineOp::Download { role, .. } => Some(role),
            _ => None,
        }
    }
}

/// A call for the caller to make: the operation, the handle of the buffer or
/// resource that it works on (zero where it works on none), and the handle of
/// the filter (zero before the filter is created).
#[derive(Clone, Copy, Debug, PartialEq, Eq, Structural)]
pub struct EngineCall {
    /// The operation.
    pub op: EngineOp,
    /// Handle of the buffer that the operation uses, or of the resource that
    /// it releases.
    pub target: usize,
    /// Handle of the filter.
    pub filter: usize,
}

/// An error that the engine has pending: its code and its message.
#[derive(Debug)]
pub struct EngineFault {
    /// The engine's error code.
    pub code: u32,
    /// The engine's message.
    pub message: String,
}

/// What the engine answered to a call: the handle it returned, where the call
/// returns one, and the error that was pending after the call, if any.
#[derive(Debug)]
pub struct EngineReply {
    /// The handle returned by `CreateFilter` or `Allocate`; zero where the
    /// engine returned none. Of no meaning after other calls.
    pub handle: usize,
    /// The error pending after the call.
    pub error: Option<EngineFault>,
}

impl Resource {
    /// The failure that it is when the engine does not hand out this
    /// resource and has no error pending.
    pub open spec fn missing(self) -> Error {
        match self {
            Resource::Filter => Error::FilterCreationFailed,
            Resource::Buffer(_) => Error::OutOfMemory,
        }
    }
}

impl EngineReply {
    /// The error that the engine has pending, or `fallback` where it has
    /// none.
    pub open spec fn error_or(self, fallback: Error) -> Error {
        match self.error {
            Some(fault) => Error::OidnError { code: fault.code, message: fault.message },
            None => fallback,
        }
    }

    /// The failure that this answer to `op` means: the pending error, or
    /// else, where `op` asks for a resource and the engine returned no
    /// handle, that the resource could not be had.
    pub open spec fn failure(self, op: EngineOp) -> Option<Error> {
        match self.error {
            Some(fault) => Some(Error::OidnError { code: fault.code, message: fault.message }),
            None => match op.acquires() {
                Some(resource) if self.handle == 0 => Some(resource.missing()),
                _ => None,
            },
        }
    }
}

} // verus!
