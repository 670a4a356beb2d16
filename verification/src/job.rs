//! What the stages of a call share: the job and the decoded images.

use crate::codec::decoded_alpha;
use crate::codec::decoded_color;
use crate::codec::encoded;
use crate::codec::lemma_channel_of_encoded;
use crate::codec::lemma_decode_encoded;
use crate::codec::lemma_decoded_words_fit;
use crate::codec::lemma_encode_decoded;
use crate::codec::words_fit;
use crate::engine::BufferRole;
use crate::layout::lemma_padded_row_bytes;
use crate::layout::lemma_unpack_pack;
use crate::layout::padded_row_bytes;
use crate::layout::RowLayout;
use crate::plan::image_bytes;
use crate::plan::DenoiseRequest;
use crate::wgpu_integration::DenoiseOptions;
use crate::wgpu_integration::DenoiseTextureFormat;
use vstd::prelude::*;

verus! {

/// Bytes that the stride of a row in a surface copy must be a multiple of.
pub const COPY_ROW_ALIGNMENT: u32 = 256;

/// What stays the same through all stages of a call.
#[derive(Clone, Copy, Debug)]
pub struct Job {
    /// The pixel encoding of the surfaces.
    pub format: DenoiseTextureFormat,
    /// Pixels in a row.
    pub width: u32,
    /// Rows.
    pub height: u32,
    /// The row strides of surface copies.
    pub layout: RowLayout,
    /// The options of the call.
    pub options: DenoiseOptions,
    /// Whether the call has an albedo surface.
    pub albedo: bool,
    /// Whether the call has a normal surface.
    pub normal: bool,
}

/// Whether surfaces of this size and encoding can be worked on: the padded
/// row stride fits in 32 bits, and the bytes of a padded surface and of an
/// engine image can be counted.
pub open spec fn job_fits(width: u32, height: u32, format: DenoiseTextureFormat) -> bool {
    let unpadded = width * format.spec_bytes_per_pixel();
    let padded = padded_row_bytes(unpadded, COPY_ROW_ALIGNMENT as int);
    &&& unpadded <= u32::MAX
    &&& padded <= u32::MAX
    &&& padded * height <= usize::MAX
    &&& image_bytes(width, height) <= usize::MAX
}

impl Job {
    /// The job is one that a call can have.
    pub open spec fn wf(self) -> bool {
        &&& self.width > 0
        &&& self.height > 0
        &&& self.layout.wf()
        &&& self.layout.spec_unpadded() == self.width * self.format.spec_bytes_per_pixel()
        &&& self.layout.spec_alignment() == COPY_ROW_ALIGNMENT
        &&& self.layout.spec_padded() * self.height <= usize::MAX
        &&& image_bytes(self.width, self.height) <= usize::MAX
    }

    /// Pixels of a surface.
    pub open spec fn pixel_count(self) -> nat {
        (self.width * self.height) as nat
    }

    /// Bytes of a padded surface.
    pub open spec fn padded_bytes(self) -> int {
        self.layout.spec_padded() * self.height
    }

    /// What the engine is asked to do.
    pub open spec fn request(self) -> DenoiseRequest {
        DenoiseRequest {
            width: self.width,
            height: self.height,
            quality: self.options.quality,
            hdr: self.options.hdr,
            srgb: self.options.srgb,
            clean_aux: false,
            input_scale: self.options.input_scale,
            in_place: false,
            albedo: self.albedo,
            normal: self.normal,
        }
    }

    /// The surface to read after `surface`: first the input, then albedo and
    /// normal where the call has them.
    pub open spec fn surface_after(self, surface: BufferRole) -> Option<BufferRole> {
        match surface {
            BufferRole::Color => if self.albedo {
                Some(BufferRole::Albedo)
            } else if self.normal {
                Some(BufferRole::Normal)
            } else {
                None
            },
            BufferRole::Albedo => if self.normal {
                Some(BufferRole::Normal)
            } else {
                None
            },
            _ => None,
        }
    }

    /// The words that decoding the padded bytes of a surface gives.
    pub open spec fn decoded(self, padded: Seq<u8>) -> (Seq<u32>, Seq<u32>) {
        let tight = self.layout.spec_unpack(padded, self.height as nat);
        (
            decoded_color(tight, self.format, self.pixel_count()),
            decoded_alpha(tight, self.format, self.pixel_count()),
        )
    }

    /// The padded bytes of a surface with these colour and alpha words.
    pub open spec fn surface_bytes(self, color: Seq<u32>, alpha: Seq<u32>) -> Seq<u8> {
        self.layout.spec_pack(
            encoded(color, alpha, self.format, self.pixel_count()),
            self.height as nat,
        )
    }

    /// The sizes of tight and padded surfaces agree with the pixel count.
    pub proof fn lemma_sizes(self)
        requires
            self.wf(),
        ensures
            self.pixel_count() * self.format.spec_bytes_per_pixel() == self.layout.spec_unpadded()
                * self.height,
            self.layout.spec_unpadded() * self.height <= self.layout.spec_padded() * self.height,
            self.pixel_count() <= usize::MAX,
            0 <= self.padded_bytes() <= usize::MAX,
    {
        let bpp = self.format.spec_bytes_per_pixel();
        lemma_padded_row_bytes(self.layout.spec_unpadded(), COPY_ROW_ALIGNMENT as int);
        assert((self.width * self.height) * bpp == (self.width * bpp) * self.height)
            by (nonlinear_arith);
        assert(self.layout.spec_unpadded() * self.height <= self.layout.spec_padded()
            * self.height) by (nonlinear_arith)
            requires
                self.layout.spec_unpadded() <= self.layout.spec_padded(),
                self.height >= 0,
        ;
        assert(self.width * self.height <= (self.width * self.height) * bpp) by (nonlinear_arith)
            requires
                bpp >= 1,
                self.width * self.height >= 0,
        ;
        assert(self.width * self.height >= 0) by (nonlinear_arith)
            requires
                self.width >= 0,
                self.height >= 0,
        ;
        assert(self.layout.spec_padded() * self.height >= 0) by (nonlinear_arith)
            requires
                self.layout.spec_padded() >= 0,
                self.height >= 0,
        ;
    }
}

/// The decoded images of a call: the colour and alpha words of the input, and
/// the colour words of the auxiliary surfaces.
#[derive(Debug)]
pub struct Images {
    /// Colour words of the input.
    pub color: Vec<u32>,
    /// Alpha words of the input.
    pub alpha: Vec<u32>,
    /// Colour words of the albedo surface; empty where there is none.
    pub albedo: Vec<u32>,
    /// Colour words of the normal surface; empty where there is none.
    pub normal: Vec<u32>,
}

/// The words of the decoded images of a call.
pub struct ImageWords {
    /// Colour words of the input.
    pub color: Seq<u32>,
    /// Alpha words of the input.
    pub alpha: Seq<u32>,
    /// Colour words of the albedo surface.
    pub albedo: Seq<u32>,
    /// Colour words of the normal surface.
    pub normal: Seq<u32>,
}

impl View for Images {
    type V = ImageWords;

    open spec fn view(&self) -> ImageWords {
        ImageWords {
            color: self.color@,
            alpha: self.alpha@,
            albedo: self.albedo@,
            normal: self.normal@,
        }
    }
}

impl ImageWords {
    /// The images once `surface` has been decoded to these colour and alpha
    /// words. Of the input both are kept, of an auxiliary surface the colour.
    pub open spec fn with_surface(
        self,
        surface: BufferRole,
        color: Seq<u32>,
        alpha: Seq<u32>,
    ) -> ImageWords {
        match surface {
            BufferRole::Color => ImageWords { color, alpha, ..self },
            BufferRole::Albedo => ImageWords { albedo: color, ..self },
            BufferRole::Normal => ImageWords { normal: color, ..self },
            BufferRole::Output => self,
        }
    }

    /// The words to upload into the buffer of this role; none into the
    /// output buffer.
    pub open spec fn upload(self, role: BufferRole) -> Option<Seq<u32>> {
        match role {
            BufferRole::Color => Some(self.color),
            BufferRole::Albedo => Some(self.albedo),
            BufferRole::Normal => Some(self.normal),
            BufferRole::Output => None,
        }
    }
}

/// Reading a surface that was written gives back what was written: the
/// colour words and the alpha words, for all words that fit the encoding.
pub proof fn lemma_written_surface(job: Job, color: Seq<u32>, alpha: Seq<u32>)
    requires
        job.wf(),
        color.len() == 3 * job.pixel_count(),
        alpha.len() == job.pixel_count(),
        words_fit(color, job.format),
        words_fit(alpha, job.format),
    ensures
        job.surface_bytes(color, alpha).len() == job.padded_bytes(),
        job.decoded(job.surface_bytes(color, alpha)) == (color, alpha),
{
    job.lemma_sizes();
    let tight = encoded(color, alpha, job.format, job.pixel_count());
    lemma_unpack_pack(job.layout, tight, job.height as nat);
    lemma_decode_encoded(color, alpha, job.format, job.pixel_count());
    assert(decoded_alpha(tight, job.format, job.pixel_count()) =~= alpha);
}

/// The alpha of the input is the alpha of the output: the surface that the
/// third stage writes holds, for every pixel, the alpha word that the first
/// stage read for it, whatever the engine made of the colour.
pub proof fn lemma_alpha_kept(job: Job, input: Seq<u8>, denoised: Seq<u32>)
    requires
        job.wf(),
        denoised.len() == 3 * job.pixel_count(),
    ensures
        job.decoded(job.surface_bytes(denoised, job.decoded(input).1)).1 == job.decoded(input).1,
{
    job.lemma_sizes();
    let n = job.pixel_count();
    let alpha = job.decoded(input).1;
    lemma_decoded_words_fit(job.layout.spec_unpack(input, job.height as nat), job.format, n);
    let tight = encoded(denoised, alpha, job.format, n);
    lemma_unpack_pack(job.layout, tight, job.height as nat);
    let again = decoded_alpha(tight, job.format, n);
    assert forall|i: int| 0 <= i < n implies again[i] == alpha[i] by {
        lemma_channel_of_encoded(denoised, alpha, job.format, n, 4 * i + 3);
    }
    assert(again =~= alpha);
}

/// Where the engine leaves the colour as it was, the surface that is written
/// is the surface that was read, with the padding of its rows set to zero.
pub proof fn lemma_unchanged_surface(job: Job, input: Seq<u8>)
    requires
        job.wf(),
        input.len() == job.padded_bytes(),
    ensures
        job.surface_bytes(job.decoded(input).0, job.decoded(input).1) == job.layout.spec_pack(
            job.layout.spec_unpack(input, job.height as nat),
            job.height as nat,
        ),
{
    job.lemma_sizes();
    lemma_encode_decoded(
        job.layout.spec_unpack(input, job.height as nat),
        job.format,
        job.pixel_count(),
    );
}

} // verus!
