//! Surfaces and their validation.
//!
//! Before any GPU or engine work starts, the surfaces of a call are checked
//! against each other: they must have the same size, one layer each, and the
//! input and the output must be in the encoding that the call asks for.

use crate::error::Error;
use crate::wgpu_integration::DenoiseTextureFormat;
use vstd::prelude::*;

verus! {

/// What the bridge reads of a GPU surface: its size in pixels, its number of
/// array layers, and its pixel encoding, if that is one that can be
/// denoised.
#[derive(Clone, Copy, Debug)]
pub struct PixelSurface {
    /// Pixels in a row.
    pub width: u32,
    /// Rows.
    pub height: u32,
    /// Array layers; depth of a volume.
    pub layers: u32,
    /// The pixel encoding, or `None` for one that cannot be denoised.
    pub encoding: Option<DenoiseTextureFormat>,
}

impl PixelSurface {
    /// A surface that can be denoised: not empty, and of one layer.
    pub open spec fn is_image(self) -> bool {
        self.width > 0 && self.height > 0 && self.layers == 1
    }

    /// Whether `other` has the size and layer count of this surface.
    pub open spec fn same_shape(self, other: PixelSurface) -> bool {
        self.width == other.width && self.height == other.height && self.layers == other.layers
    }
}

/// Whether the surfaces of a call fit together in size: input, output and
/// every auxiliary surface are images of one size.
pub open spec fn shapes_agree(
    input: PixelSurface,
    output: PixelSurface,
    aux: Seq<PixelSurface>,
) -> bool {
    &&& input.is_image()
    &&& input.same_shape(output)
    &&& forall|i: int| 0 <= i < aux.len() ==> input.same_shape(#[trigger] aux[i])
}

/// Whether input and output are both in the encoding `format`.
pub open spec fn encodings_agree(
    input: PixelSurface,
    output: PixelSurface,
    format: DenoiseTextureFormat,
) -> bool {
    input.encoding == Some(format) && output.encoding == Some(format)
}

/// What validation answers: `InvalidDimensions` where the shapes disagree,
/// else `UnsupportedFormat` where the encodings disagree, else success.
pub open spec fn validated(
    input: PixelSurface,
    output: PixelSurface,
    aux: Seq<PixelSurface>,
    format: DenoiseTextureFormat,
) -> Result<(), Error> {
    if !shapes_agree(input, output, aux) {
        Err(Error::InvalidDimensions)
    } else if !encodings_agree(input, output, format) {
        Err(Error::UnsupportedFormat)
    } else {
        Ok(())
    }
}

/// Checks the surfaces of a call against each other and against the encoding
/// that the call asks for.
pub fn validate(
    input: &PixelSurface,
    output: &PixelSurface,
    aux: &[PixelSurface],
    format: DenoiseTextureFormat,
) -> (r: Result<(), Error>)
    ensures
        r == validated(*input, *output, aux@, format),
{
    if input.width == 0 || input.height == 0 || input.layers != 1 {
        return Err(Error::InvalidDimensions);
    }
    if output.width != input.width || output.height != input.height || output.layers != 1 {
        return Err(Error::InvalidDimensions);
    }
    let mut i: usize = 0;
    while i < aux.len()
        invariant
            i <= aux@.len(),
            input.is_image(),
            forall|j: int| 0 <= j < i ==> input.same_shape(#[trigger] aux@[j]),
        decreases aux@.len() - i,
    {
        let surface = &aux[i];
        if surface.width != input.width || surface.height != input.height || surface.layers
            != 1 {
            proof {
                assert(!input.same_shape(aux@[i as int]));
            }
            return Err(Error::InvalidDimensions);
        }
        i += 1;
    }
    if !encoding_is(input.encoding, format) || !encoding_is(output.encoding, format) {
        return Err(Error::UnsupportedFormat);
    }
    Ok(())
}

/// Whether `encoding` is the encoding `format`.
fn encoding_is(encoding: Option<DenoiseTextureFormat>, format: DenoiseTextureFormat) -> (r: bool)
    ensures
        r <==> encoding == Some(format),
{
    match encoding {
        Some(found) => found == format,
        None => false,
    }
}

} // verus!
