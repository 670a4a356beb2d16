//! Denoising of GPU surfaces.
//!
//! A surface is denoised in three stages, each a type of its own:
//! [`ReadingSurface`] brings the pixels of the input surface, and of the
//! auxiliary surfaces, to the host and decodes them; [`Denoising`] runs the
//! filter on the engine; [`WritingSurface`] sends the encoded result to the
//! output surface. [`denoise_texture`] and [`denoise_texture_with_aux`]
//! validate the surfaces and start the first stage.
//!
//! No stage makes a GPU or engine call itself. Each names the call to make,
//! takes what came of it, and names the next call, the next stage, or the
//! failure that ends the work.
//!
//! [`Denoising`]: crate::denoising::Denoising
//! [`WritingSurface`]: crate::writing::WritingSurface

use crate::error::Error;
use crate::filter::Quality;
use crate::gpu::GpuCall;
use crate::job::job_fits;
use crate::job::COPY_ROW_ALIGNMENT;
use crate::job::Job;
use crate::layout::RowLayout;
use crate::plan::image_size;
use crate::reading::ReadingModel;
use crate::reading::ReadingSurface;
use crate::surface::validate;
use crate::surface::validated;
use crate::surface::PixelSurface;
use vstd::prelude::*;

verus! {

/// The pixel encodings of the GPU API. Nothing is known of a value of it but
/// that it is one.
#[verifier::external_type_specification]
#[verifier::external_body]
pub struct ExTextureFormat(wgpu::TextureFormat);

/// A pixel encoding that can be denoised: four channels, red, green, blue and
/// alpha, each a floating-point number.
#[derive(Clone, Copy, Debug, PartialEq, Eq, Structural)]
pub enum DenoiseTextureFormat {
    /// Four 32-bit floats per pixel.
    Rgba32Float,
    /// Four 16-bit floats per pixel.
    Rgba16Float,
}

impl DenoiseTextureFormat {
    /// Bytes that one pixel takes.
    pub open spec fn spec_bytes_per_pixel(self) -> int {
        match self {
            DenoiseTextureFormat::Rgba32Float => 16,
            DenoiseTextureFormat::Rgba16Float => 8,
        }
    }

    /// Bytes that one channel of a pixel takes.
    pub open spec fn spec_channel_bytes(self) -> int {
        match self {
            DenoiseTextureFormat::Rgba32Float => 4,
            DenoiseTextureFormat::Rgba16Float => 2,
        }
    }

    /// The word that encodes the value one: `0x3f80_0000` as a 32-bit float,
    /// `0x3c00` as a 16-bit float.
    pub open spec fn spec_one_word(self) -> u32 {
        match self {
            DenoiseTextureFormat::Rgba32Float => 0x3f80_0000,
            DenoiseTextureFormat::Rgba16Float => 0x3c00,
        }
    }

    /// The encoding that a `wgpu::TextureFormat` stands for, if it is one
    /// that can be denoised: the variants `Rgba32Float` and `Rgba16Float`
    /// give the encodings of those names, every other variant gives none.
    /// The contract says nothing of the result, since nothing can be said of
    /// the argument.
    #[verifier::external_body]
    pub fn from_wgpu(format: wgpu::TextureFormat) -> (r: Option<DenoiseTextureFormat>) {
        match format {
            wgpu::TextureFormat::Rgba32Float => Some(DenoiseTextureFormat::Rgba32Float),
            wgpu::TextureFormat::Rgba16Float => Some(DenoiseTextureFormat::Rgba16Float),
            _ => None,
        }
    }

    /// Bytes that one pixel takes.
    pub fn bytes_per_pixel(self) -> (r: u32)
        ensures
            r == self.spec_bytes_per_pixel(),
    {
        match self {
            DenoiseTextureFormat::Rgba32Float => 16,
            DenoiseTextureFormat::Rgba16Float => 8,
        }
    }

    /// Bytes that one channel of a pixel takes.
    pub fn channel_bytes(self) -> (r: usize)
        ensures
            r == self.spec_channel_bytes(),
            4 * r == self.spec_bytes_per_pixel(),
    {
        match self {
            DenoiseTextureFormat::Rgba32Float => 4,
            DenoiseTextureFormat::Rgba16Float => 2,
        }
    }

    /// The word that encodes the value one.
    pub fn one_word(self) -> (r: u32)
        ensures
            r == self.spec_one_word(),
    {
        match self {
            DenoiseTextureFormat::Rgba32Float => 0x3f80_0000,
            DenoiseTextureFormat::Rgba16Float => 0x3c00,
        }
    }
}

/// Options of a denoise call.
#[derive(Clone, Copy, Debug)]
pub struct DenoiseOptions {
    /// Trade-off between quality and speed.
    pub quality: Quality,
    /// Whether the image has high dynamic range.
    pub hdr: bool,
    /// Whether the image is sRGB-encoded.
    pub srgb: bool,
    /// The input scale, as the bits of a 32-bit float; `None` leaves the
    /// choice to the engine.
    pub input_scale: Option<u32>,
}

impl Default for DenoiseOptions {
    fn default() -> (r: DenoiseOptions)
        ensures
            r == (DenoiseOptions {
                quality: Quality::Default,
                hdr: true,
                srgb: false,
                input_scale: None,
            }),
    {
        DenoiseOptions { quality: Quality::Default, hdr: true, srgb: false, input_scale: None }
    }
}

/// The row alignment of copies between buffers and surfaces, which is
/// `wgpu::COPY_BYTES_PER_ROW_ALIGNMENT`. Its source gives it as 256, which
/// is `COPY_ROW_ALIGNMENT`.
#[verifier::external_body]
fn copy_row_alignment() -> (r: u32)
    ensures
        r == COPY_ROW_ALIGNMENT,
{
    wgpu::COPY_BYTES_PER_ROW_ALIGNMENT
}

/// The auxiliary surfaces of a call, in the order albedo, normal.
pub open spec fn aux_surfaces(albedo: Option<PixelSurface>, normal: Option<PixelSurface>) -> Seq<
    PixelSurface,
> {
    let first = match albedo {
        Some(surface) => seq![surface],
        None => Seq::empty(),
    };
    match normal {
        Some(surface) => first.push(surface),
        None => first,
    }
}

/// Why a call cannot start, if it cannot: what validation answers, or
/// `InvalidDimensions` for surfaces too large to work on.
pub open spec fn start_failure(
    input: PixelSurface,
    output: PixelSurface,
    aux: Seq<PixelSurface>,
    format: DenoiseTextureFormat,
) -> Option<Error> {
    match validated(input, output, aux, format) {
        Err(e) => Some(e),
        Ok(_) => if job_fits(input.width, input.height, format) {
            None
        } else {
            Some(Error::InvalidDimensions)
        },
    }
}

/// Whether `reading` and `call` are the start of the work on a surface of
/// this size and encoding: the input is the surface to read, nothing is
/// decoded yet, and the first call creates the readback buffer.
pub open spec fn starts(
    reading: ReadingSurface,
    call: GpuCall,
    input: PixelSurface,
    format: DenoiseTextureFormat,
    options: DenoiseOptions,
    albedo: bool,
    normal: bool,
) -> bool {
    let job = reading@.job;
    &&& job.wf()
    &&& job.format == format
    &&& job.width == input.width
    &&& job.height == input.height
    &&& job.options == options
    &&& job.albedo == albedo
    &&& job.normal == normal
    &&& reading@ == ReadingModel::initial(job)
    &&& call == reading@.create_call()
}

/// Validates the surfaces and starts the first stage.
fn start(
    input: &PixelSurface,
    output: &PixelSurface,
    aux: &Vec<PixelSurface>,
    format: DenoiseTextureFormat,
    options: &DenoiseOptions,
    albedo: bool,
    normal: bool,
) -> (r: Result<(ReadingSurface, GpuCall), Error>)
    ensures
        r matches Err(e) ==> start_failure(*input, *output, aux@, format) == Some(e),
        r matches Ok((reading, call)) ==> {
            &&& start_failure(*input, *output, aux@, format).is_none()
            &&& starts(reading, call, *input, format, *options, albedo, normal)
        },
{
    match validate(input, output, aux.as_slice(), format) {
        Err(e) => { return Err(e); },
        Ok(_) => {},
    }
    let layout: RowLayout = match RowLayout::new(
        input.width,
        format.bytes_per_pixel(),
        copy_row_alignment(),
    ) {
        Some(layout) => layout,
        None => { return Err(Error::InvalidDimensions); },
    };
    let stride: u32 = layout.padded_bytes_per_row();
    assert(0 <= stride * input.height <= 0xffff_ffff * 0xffff_ffff) by (nonlinear_arith)
        requires
            0 <= stride <= 0xffff_ffff,
            0 <= input.height <= 0xffff_ffff,
    ;
    let byte_size: u64 = (stride as u64) * (input.height as u64);
    if byte_size > usize::MAX as u64 {
        return Err(Error::InvalidDimensions);
    }
    if image_size(input.width, input.height).is_none() {
        return Err(Error::InvalidDimensions);
    }
    let job = Job {
        format,
        width: input.width,
        height: input.height,
        layout,
        options: *options,
        albedo,
        normal,
    };
    Ok(ReadingSurface::start(job))
}

/// Starts the denoising of the surface `input` into the surface `output`,
/// both in the encoding `format`.
///
/// Nothing is asked of the GPU or of the engine when the call cannot start:
/// with `InvalidDimensions` when a surface is empty, has more than one
/// layer, or differs from the input in size, or when the surfaces are too
/// large to work on; else with `UnsupportedFormat` when input or output is
/// not in the encoding `format`.
pub fn denoise_texture(
    input: &PixelSurface,
    output: &PixelSurface,
    format: DenoiseTextureFormat,
    options: &DenoiseOptions,
) -> (r: Result<(ReadingSurface, GpuCall), Error>)
    ensures
        r matches Err(e) ==> start_failure(*input, *output, Seq::empty(), format) == Some(e),
        r matches Ok((reading, call)) ==> {
            &&& start_failure(*input, *output, Seq::empty(), format).is_none()
            &&& starts(reading, call, *input, format, *options, false, false)
        },
{
    let aux: Vec<PixelSurface> = Vec::new();
    start(input, output, &aux, format, options, false, false)
}

/// Starts the denoising of the surface `input` into the surface `output`
/// with auxiliary surfaces, which must have the size of the input. A call
/// with one auxiliary surface only, or with none, is in order.
///
/// Fails as [`denoise_texture`] does, and with `InvalidDimensions` also when
/// an auxiliary surface has more than one layer or differs from the input in
/// size.
pub fn denoise_texture_with_aux(
    input: &PixelSurface,
    output: &PixelSurface,
    format: DenoiseTextureFormat,
    options: &DenoiseOptions,
    albedo: Option<&PixelSurface>,
    normal: Option<&PixelSurface>,
) -> (r: Result<(ReadingSurface, GpuCall), Error>)
    ensures
        r matches Err(e) ==> start_failure(
            *input,
            *output,
            aux_surfaces(
                match albedo {
                    Some(s) => Some(*s),
                    None => None,
                },
                match normal {
                    Some(s) => Some(*s),
                    None => None,
                },
            ),
            format,
        ) == Some(e),
        r matches Ok((reading, call)) ==> {
            &&& start_failure(
                *input,
                *output,
                aux_surfaces(
                    match albedo {
                        Some(s) => Some(*s),
                        None => None,
                    },
                    match normal {
                        Some(s) => Some(*s),
                        None => None,
                    },
                ),
                format,
            ).is_none()
            &&& starts(reading, call, *input, format, *options, albedo.is_some(), normal.is_some())
        },
{
    let mut aux: Vec<PixelSurface> = Vec::new();
    if let Some(surface) = albedo {
        aux.push(*surface);
    }
    if let Some(surface) = normal {
        aux.push(*surface);
    }
    start(input, output, &aux, format, options, albedo.is_some(), normal.is_some())
}

} // verus!
