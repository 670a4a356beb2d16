//! The deciding half of a bridge between GPU image surfaces and the Open
//! Image Denoise engine.
//!
//! Denoising a surface means reading it from the GPU, handing its colour to
//! the engine, and writing the result back. This crate holds everything of
//! that which is a decision or a movement of data, and proves it right:
//!
//! - [`layout`]: the row strides of surface copies, packing and unpacking.
//! - [`bits`] and [`codec`]: the bytes of a surface and the words of its
//!   channels.
//! - [`surface`]: which surfaces fit together.
//! - [`engine`], [`plan`], [`session`] and [`run`]: the calls of one run of a
//!   filter on the engine, and the release of everything that the engine
//!   hands out.
//! - [`wgpu_integration`], [`job`], [`gpu`], [`reading`], [`denoising`] and
//!   [`writing`]: the three stages of a call on a surface.
//! - [`device`], [`buffer`], [`filter`], [`sys`] and [`error`]: devices,
//!   buffers, filters, the engine's own enumerations, and the error type.
//!
//! The crate makes no call into the engine or the GPU. It names each call;
//! the caller makes it and reports what came of it.

use vstd::prelude::*;

pub mod bits;
pub mod buffer;
pub mod codec;
pub mod denoising;
pub mod device;
pub mod engine;
pub mod error;
pub mod filter;
pub mod gpu;
pub mod job;
pub mod layout;
pub mod plan;
pub mod reading;
pub mod run;
pub mod session;
pub mod surface;
pub mod sys;
pub mod wgpu_integration;
pub mod writing;

pub use buffer::BufferStorage;
pub use buffer::ExternalMemoryTypeFlag;
pub use buffer::OidnBuffer;
pub use codec::ChannelBuffers;
pub use device::take_global_error;
pub use device::OidnDevice;
pub use device::OidnDeviceType;
pub use error::Error;
pub use filter::Filter;
pub use filter::ImageFormat;
pub use filter::OIDNFormat;
pub use filter::Quality;
pub use filter::RtFilter;
pub use filter::RtLightmapFilter;
pub use layout::RowLayout;
pub use surface::PixelSurface;
pub use wgpu_integration::denoise_texture;
pub use wgpu_integration::denoise_texture_with_aux;
pub use wgpu_integration::DenoiseOptions;
pub use wgpu_integration::DenoiseTextureFormat;

verus! {

/// Size of a physical device UUID in bytes.
pub const OIDN_UUID_SIZE: usize = 16;

/// Size of a physical device LUID in bytes.
pub const OIDN_LUID_SIZE: usize = 8;

} // verus!
