//! The calls to the GPU and what comes of them.
//!
//! Surfaces are read and written through GPU calls that this crate cannot
//! make itself. Here are the words for them.

use crate::engine::BufferRole;
use vstd::prelude::*;

verus! {

/// Whether the mapping of a buffer has completed.
#[derive(Debug)]
pub enum MapStatus {
    /// Not yet.
    Pending,
    /// The buffer is mapped.
    Completed,
    /// The mapping failed.
    Failed(wgpu::BufferAsyncError),
    /// Nothing will be heard of the mapping any more: whoever was to report
    /// it is gone.
    Lost,
}

/// Makes the error that a failed mapping is reported with, a
/// `wgpu::BufferAsyncError`, which is a struct without fields.
#[verifier::external_body]
pub(crate) fn map_failure() -> (e: wgpu::BufferAsyncError) {
    wgpu::BufferAsyncError
}

/// A GPU call for the caller to make.
#[derive(Debug)]
pub enum GpuCall {
    /// Create a buffer of `byte_size` bytes that a surface can be copied to
    /// and that can be mapped for reading.
    CreateReadbackBuffer { byte_size: u64 },
    /// Submit the copy of a surface into the readback buffer, in `rows` rows
    /// of `row_stride` bytes.
    CopySurfaceToBuffer { surface: BufferRole, row_stride: u32, rows: u32 },
    /// Ask for the readback buffer to be mapped.
    MapAsync,
    /// Wait a moment, poll the device, and report whether the mapping has
    /// completed.
    Poll,
    /// Report the bytes of the mapped buffer.
    GetMappedBytes,
    /// Unmap the readback buffer.
    Unmap,
    /// Create a buffer with these contents that can be copied to a surface.
    CreateUploadBuffer { contents: Vec<u8> },
    /// Submit the copy of the upload buffer to the output surface, in `rows`
    /// rows of `row_stride` bytes.
    CopyBufferToSurface { row_stride: u32, rows: u32 },
}

/// What came of a GPU call.
#[derive(Debug)]
pub struct GpuReply {
    /// Whether the mapping has completed. Of meaning after `Poll`.
    pub map: MapStatus,
    /// The bytes of the mapped buffer. Of meaning after `GetMappedBytes`.
    pub bytes: Vec<u8>,
}

} // verus!
