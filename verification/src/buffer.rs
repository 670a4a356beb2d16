//! Buffers of the engine.

use crate::engine::EngineReply;
use crate::error::Error;
use crate::sys::OIDNExternalMemoryTypeFlag;
use crate::sys::OIDNStorage;
use vstd::prelude::*;
use vstd::std_specs::convert::FromSpecImpl;

verus! {

/// Where the memory of a buffer lives.
#[derive(Clone, Copy, Debug, PartialEq, Eq, Structural)]
pub enum BufferStorage {
    /// Not defined.
    Undefined,
    /// On the host, accessible by the device.
    Host,
    /// On the device, not accessible by the host.
    Device,
    /// Migrated between host and device as needed.
    Managed,
}

impl BufferStorage {
    /// The storage mode that the engine's value stands for.
    pub open spec fn of_raw(raw: OIDNStorage) -> BufferStorage {
        match raw {
            OIDNStorage::Undefined => BufferStorage::Undefined,
            OIDNStorage::Host => BufferStorage::Host,
            OIDNStorage::Device => BufferStorage::Device,
            OIDNStorage::Managed => BufferStorage::Managed,
        }
    }

    /// The engine's own value for this storage mode.
    pub open spec fn spec_to_raw(self) -> OIDNStorage {
        match self {
            BufferStorage::Undefined => OIDNStorage::Undefined,
            BufferStorage::Host => OIDNStorage::Host,
            BufferStorage::Device => OIDNStorage::Device,
            BufferStorage::Managed => OIDNStorage::Managed,
        }
    }

    /// The two conversions undo each other.
    pub proof fn lemma_raw_round_trip(self, raw: OIDNStorage)
        ensures
            BufferStorage::of_raw(self.spec_to_raw()) == self,
            BufferStorage::of_raw(raw).spec_to_raw() == raw,
    {
    }
}

impl From<OIDNStorage> for BufferStorage {
    fn from(s: OIDNStorage) -> (r: BufferStorage) {
        match s {
            OIDNStorage::Undefined => BufferStorage::Undefined,
            OIDNStorage::Host => BufferStorage::Host,
            OIDNStorage::Device => BufferStorage::Device,
            OIDNStorage::Managed => BufferStorage::Managed,
        }
    }
}

impl FromSpecImpl<OIDNStorage> for BufferStorage {
    open spec fn obeys_from_spec() -> bool {
        true
    }

    open spec fn from_spec(s: OIDNStorage) -> BufferStorage {
        BufferStorage::of_raw(s)
    }
}

impl From<BufferStorage> for OIDNStorage {
    fn from(s: BufferStorage) -> (r: OIDNStorage) {
        match s {
            BufferStorage::Undefined => OIDNStorage::Undefined,
            BufferStorage::Host => OIDNStorage::Host,
            BufferStorage::Device => OIDNStorage::Device,
            BufferStorage::Managed => OIDNStorage::Managed,
        }
    }
}

impl FromSpecImpl<BufferStorage> for OIDNStorage {
    open spec fn obeys_from_spec() -> bool {
        true
    }

    open spec fn from_spec(s: BufferStorage) -> OIDNStorage {
        s.spec_to_raw()
    }
}

/// Kind of handle that a buffer is imported from.
#[derive(Clone, Copy, Debug, PartialEq, Eq, Structural)]
pub enum ExternalMemoryTypeFlag {
    /// No kind of handle.
    NoType,
    OpaqueFD,
    DmaBuf,
    OpaqueWin32,
    OpaqueWin32KMT,
    D3D11Texture,
    D3D11TextureKMT,
    D3D11Resource,
    D3D11ResourceKMT,
    D3D12Heap,
    D3D12Resource,
}

impl ExternalMemoryTypeFlag {
    /// The engine's own value for this kind of handle.
    pub open spec fn spec_to_raw(self) -> OIDNExternalMemoryTypeFlag {
        match self {
            ExternalMemoryTypeFlag::NoType => OIDNExternalMemoryTypeFlag::NoType,
            ExternalMemoryTypeFlag::OpaqueFD => OIDNExternalMemoryTypeFlag::OpaqueFD,
            ExternalMemoryTypeFlag::DmaBuf => OIDNExternalMemoryTypeFlag::DmaBuf,
            ExternalMemoryTypeFlag::OpaqueWin32 => OIDNExternalMemoryTypeFlag::OpaqueWin32,
            ExternalMemoryTypeFlag::OpaqueWin32KMT => OIDNExternalMemoryTypeFlag::OpaqueWin32KMT,
            ExternalMemoryTypeFlag::D3D11Texture => OIDNExternalMemoryTypeFlag::D3D11Texture,
            ExternalMemoryTypeFlag::D3D11TextureKMT => OIDNExternalMemoryTypeFlag::D3D11TextureKMT,
            ExternalMemoryTypeFlag::D3D11Resource => OIDNExternalMemoryTypeFlag::D3D11Resource,
            ExternalMemoryTypeFlag::D3D11ResourceKMT => OIDNExternalMemoryTypeFlag::D3D11ResourceKMT,
            ExternalMemoryTypeFlag::D3D12Heap => OIDNExternalMemoryTypeFlag::D3D12Heap,
            ExternalMemoryTypeFlag::D3D12Resource => OIDNExternalMemoryTypeFlag::D3D12Resource,
        }
    }
}

impl From<ExternalMemoryTypeFlag> for OIDNExternalMemoryTypeFlag {
    fn from(f: ExternalMemoryTypeFlag) -> (r: OIDNExternalMemoryTypeFlag) {
        match f {
            ExternalMemoryTypeFlag::NoType => OIDNExternalMemoryTypeFlag::NoType,
            ExternalMemoryTypeFlag::OpaqueFD => OIDNExternalMemoryTypeFlag::OpaqueFD,
            ExternalMemoryTypeFlag::DmaBuf => OIDNExternalMemoryTypeFlag::DmaBuf,
            ExternalMemoryTypeFlag::OpaqueWin32 => OIDNExternalMemoryTypeFlag::OpaqueWin32,
            ExternalMemoryTypeFlag::OpaqueWin32KMT => OIDNExternalMemoryTypeFlag::OpaqueWin32KMT,
            ExternalMemoryTypeFlag::D3D11Texture => OIDNExternalMemoryTypeFlag::D3D11Texture,
            ExternalMemoryTypeFlag::D3D11TextureKMT => OIDNExternalMemoryTypeFlag::D3D11TextureKMT,
            ExternalMemoryTypeFlag::D3D11Resource => OIDNExternalMemoryTypeFlag::D3D11Resource,
            ExternalMemoryTypeFlag::D3D11ResourceKMT => OIDNExternalMemoryTypeFlag::D3D11ResourceKMT,
            ExternalMemoryTypeFlag::D3D12Heap => OIDNExternalMemoryTypeFlag::D3D12Heap,
            ExternalMemoryTypeFlag::D3D12Resource => OIDNExternalMemoryTypeFlag::D3D12Resource,
        }
    }
}

impl FromSpecImpl<ExternalMemoryTypeFlag> for OIDNExternalMemoryTypeFlag {
    open spec fn obeys_from_spec() -> bool {
        true
    }

    open spec fn from_spec(f: ExternalMemoryTypeFlag) -> OIDNExternalMemoryTypeFlag {
        f.spec_to_raw()
    }
}

/// A buffer of the engine. Its handle is not zero.
#[derive(Debug)]
pub struct OidnBuffer {
    raw: usize,
}

impl OidnBuffer {
    /// The engine's handle of the buffer.
    pub closed spec fn spec_raw(self) -> usize {
        self.raw
    }

    /// The buffer that the engine has answered an allocation with. There is
    /// one exactly when the engine returned a handle; else the failure is
    /// the error that the engine has pending, or `OutOfMemory` where it has
    /// none.
    pub fn new(reply: EngineReply) -> (r: Result<OidnBuffer, Error>)
        ensures
            r.is_ok() <==> reply.handle != 0,
            r matches Ok(buffer) ==> buffer.spec_raw() == reply.handle,
            r matches Err(e) ==> e == reply.error_or(Error::OutOfMemory),
    {
        let EngineReply { handle, error } = reply;
        if handle != 0 {
            return Ok(OidnBuffer { raw: handle });
        }
        match error {
            Some(fault) => Err(Error::OidnError { code: fault.code, message: fault.message }),
            None => Err(Error::OutOfMemory),
        }
    }

    /// The engine's handle of the buffer.
    pub fn raw(&self) -> (r: usize)
        ensures
            r == self.spec_raw(),
            r != 0,
    {
        proof {
            use_type_invariant(self);
        }
        self.raw
    }

    #[verifier::type_invariant]
    spec fn held(self) -> bool {
        self.raw != 0
    }
}

} // verus!
