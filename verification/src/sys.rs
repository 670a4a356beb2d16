//! The engine's own enumerations and the numbers that stand for them in its
//! C interface.

#![allow(non_camel_case_types)]

use vstd::prelude::*;

verus! {

/// Kind of device that the engine runs on.
#[derive(Clone, Copy, Debug, PartialEq, Eq, Structural)]
pub enum OIDNDeviceType {
    Default,
    CPU,
    SYCL,
    CUDA,
    HIP,
    Metal,
}

impl OIDNDeviceType {
    /// The number that stands for this device type.
    pub open spec fn spec_code(self) -> u32 {
        match self {
            OIDNDeviceType::Default => 0,
            OIDNDeviceType::CPU => 1,
            OIDNDeviceType::SYCL => 2,
            OIDNDeviceType::CUDA => 3,
            OIDNDeviceType::HIP => 4,
            OIDNDeviceType::Metal => 5,
        }
    }

    /// The number that stands for this device type.
    pub fn code(self) -> (r: u32)
        ensures
            r == self.spec_code(),
    {
        match self {
            OIDNDeviceType::Default => 0,
            OIDNDeviceType::CPU => 1,
            OIDNDeviceType::SYCL => 2,
            OIDNDeviceType::CUDA => 3,
            OIDNDeviceType::HIP => 4,
            OIDNDeviceType::Metal => 5,
        }
    }
}

/// Error codes of the engine.
#[derive(Clone, Copy, Debug, PartialEq, Eq, Structural)]
pub enum OIDNError {
    /// No error: `OIDN_ERROR_NONE` in the engine's own words.
    NoError,
    Unknown,
    InvalidArgument,
    InvalidOperation,
    OutOfMemory,
    UnsupportedHardware,
    Cancelled,
}

impl OIDNError {
    /// The number that stands for this error.
    pub open spec fn spec_code(self) -> u32 {
        match self {
            OIDNError::NoError => 0,
            OIDNError::Unknown => 1,
            OIDNError::InvalidArgument => 2,
            OIDNError::InvalidOperation => 3,
            OIDNError::OutOfMemory => 4,
            OIDNError::UnsupportedHardware => 5,
            OIDNError::Cancelled => 6,
        }
    }

    /// The number that stands for this error.
    pub fn code(self) -> (r: u32)
        ensures
            r == self.spec_code(),
    {
        match self {
            OIDNError::NoError => 0,
            OIDNError::Unknown => 1,
            OIDNError::InvalidArgument => 2,
            OIDNError::InvalidOperation => 3,
            OIDNError::OutOfMemory => 4,
            OIDNError::UnsupportedHardware => 5,
            OIDNError::Cancelled => 6,
        }
    }
}

/// Layout of the channels of an image that the engine reads or writes.
#[derive(Clone, Copy, Debug, PartialEq, Eq, Structural)]
pub enum OIDNFormat {
    Undefined,
    Float,
    Float2,
    Float3,
    Float4,
    Half,
    Half2,
    Half3,
    Half4,
}

impl OIDNFormat {
    /// The number that stands for this format.
    pub open spec fn spec_code(self) -> u32 {
        match self {
            OIDNFormat::Undefined => 0,
            OIDNFormat::Float => 1,
            OIDNFormat::Float2 => 2,
            OIDNFormat::Float3 => 3,
            OIDNFormat::Float4 => 4,
            OIDNFormat::Half => 257,
            OIDNFormat::Half2 => 258,
            OIDNFormat::Half3 => 259,
            OIDNFormat::Half4 => 260,
        }
    }

    /// The number that stands for this format.
    pub fn code(self) -> (r: u32)
        ensures
            r == self.spec_code(),
    {
        match self {
            OIDNFormat::Undefined => 0,
            OIDNFormat::Float => 1,
            OIDNFormat::Float2 => 2,
            OIDNFormat::Float3 => 3,
            OIDNFormat::Float4 => 4,
            OIDNFormat::Half => 257,
            OIDNFormat::Half2 => 258,
            OIDNFormat::Half3 => 259,
            OIDNFormat::Half4 => 260,
        }
    }
}

/// Where the memory of a buffer lives.
#[derive(Clone, Copy, Debug, PartialEq, Eq, Structural)]
pub enum OIDNStorage {
    Undefined,
    Host,
    Device,
    Managed,
}

impl OIDNStorage {
    /// The number that stands for this storage mode.
    pub open spec fn spec_code(self) -> u32 {
        match self {
            OIDNStorage::Undefined => 0,
            OIDNStorage::Host => 1,
            OIDNStorage::Device => 2,
            OIDNStorage::Managed => 3,
        }
    }

    /// The number that stands for this storage mode.
    pub fn code(self) -> (r: u32)
        ensures
            r == self.spec_code(),
    {
        match self {
            OIDNStorage::Undefined => 0,
            OIDNStorage::Host => 1,
            OIDNStorage::Device => 2,
            OIDNStorage::Managed => 3,
        }
    }
}

/// Kind of handle that a buffer is imported from. Each kind is one bit.
#[derive(Clone, Copy, Debug, PartialEq, Eq, Structural)]
pub enum OIDNExternalMemoryTypeFlag {
    /// No kind of handle: `OIDN_EXTERNAL_MEMORY_TYPE_FLAG_NONE` in the engine's
    /// own words.
    NoType,
    OpaqueFD,
    DmaBuf,
    OpaqueWin32,
    OpaqueWin32KMT,
    D3D11Texture,
    D3D11TextureKMT,
    D3D11Resource,
    D3D11ResourceKMT,
    D3D12Heap,
    D3D12Resource,
}

impl OIDNExternalMemoryTypeFlag {
    /// The bit that stands for this kind of handle; zero for none.
    pub open spec fn spec_code(self) -> u32 {
        match self {
            OIDNExternalMemoryTypeFlag::NoType => 0,
            OIDNExternalMemoryTypeFlag::OpaqueFD => 1,
            OIDNExternalMemoryTypeFlag::DmaBuf => 2,
            OIDNExternalMemoryTypeFlag::OpaqueWin32 => 4,
            OIDNExternalMemoryTypeFlag::OpaqueWin32KMT => 8,
            OIDNExternalMemoryTypeFlag::D3D11Texture => 16,
            OIDNExternalMemoryTypeFlag::D3D11TextureKMT => 32,
            OIDNExternalMemoryTypeFlag::D3D11Resource => 64,
            OIDNExternalMemoryTypeFlag::D3D11ResourceKMT => 128,
            OIDNExternalMemoryTypeFlag::D3D12Heap => 256,
            OIDNExternalMemoryTypeFlag::D3D12Resource => 512,
        }
    }

    /// The bit that stands for this kind of handle; zero for none.
    pub fn code(self) -> (r: u32)
        ensures
            r == self.spec_code(),
    {
        match self {
            OIDNExternalMemoryTypeFlag::NoType => 0,
            OIDNExternalMemoryTypeFlag::OpaqueFD => 1,
            OIDNExternalMemoryTypeFlag::DmaBuf => 2,
            OIDNExternalMemoryTypeFlag::OpaqueWin32 => 4,
            OIDNExternalMemoryTypeFlag::OpaqueWin32KMT => 8,
            OIDNExternalMemoryTypeFlag::D3D11Texture => 16,
            OIDNExternalMemoryTypeFlag::D3D11TextureKMT => 32,
            OIDNExternalMemoryTypeFlag::D3D11Resource => 64,
            OIDNExternalMemoryTypeFlag::D3D11ResourceKMT => 128,
            OIDNExternalMemoryTypeFlag::D3D12Heap => 256,
            OIDNExternalMemoryTypeFlag::D3D12Resource => 512,
        }
    }
}

/// Trade-off between quality and speed of a filter.
#[derive(Clone, Copy, Debug, PartialEq, Eq, Structural)]
pub enum OIDNQuality {
    Default,
    Fast,
    Balanced,
    High,
}

impl OIDNQuality {
    /// The number that stands for this quality.
    pub open spec fn spec_code(self) -> u32 {
        match self {
            OIDNQuality::Default => 0,
            OIDNQuality::Fast => 4,
            OIDNQuality::Balanced => 5,
            OIDNQuality::High => 6,
        }
    }

    /// The number that stands for this quality.
    pub fn code(self) -> (r: u32)
        ensures
            r == self.spec_code(),
    {
        match self {
            OIDNQuality::Default => 0,
            OIDNQuality::Fast => 4,
            OIDNQuality::Balanced => 5,
            OIDNQuality::High => 6,
        }
    }
}

} // verus!
