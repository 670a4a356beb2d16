//! Filters of the engine and their parameters.

use crate::device::OidnDevice;
use crate::engine::EngineCall;
use crate::engine::EngineReply;
use crate::error::Error;
use crate::plan::image_fits;
use crate::plan::lightmap_plan;
use crate::plan::AUTO_INPUT_SCALE;
use crate::plan::DenoiseRequest;
use crate::session::EngineSession;
use crate::session::SessionModel;
pub use crate::sys::OIDNFormat;
use crate::sys::OIDNQuality;
use vstd::prelude::*;
use vstd::string::StrSliceExecFns;

verus! {

/// Layout of the channels of an image that a filter reads or writes.
pub type ImageFormat = OIDNFormat;

/// Trade-off between quality and speed of a filter.
#[derive(Clone, Copy, Debug, PartialEq, Eq, Structural)]
pub enum Quality {
    /// The engine's default, which is high quality.
    Default,
    /// For interactive preview.
    Fast,
    /// Between fast and high.
    Balanced,
    /// For final frames.
    High,
}

impl Quality {
    /// The engine's own value for this quality.
    pub open spec fn spec_to_raw(self) -> OIDNQuality {
        match self {
            Quality::Default => OIDNQuality::Default,
            Quality::Fast => OIDNQuality::Fast,
            Quality::Balanced => OIDNQuality::Balanced,
            Quality::High => OIDNQuality::High,
        }
    }

    /// The engine's own value for this quality.
    pub fn to_raw(self) -> (r: OIDNQuality)
        ensures
            r == self.spec_to_raw(),
    {
        match self {
            Quality::Default => OIDNQuality::Default,
            Quality::Fast => OIDNQuality::Fast,
            Quality::Balanced => OIDNQuality::Balanced,
            Quality::High => OIDNQuality::High,
        }
    }
}

impl Default for Quality {
    fn default() -> (r: Quality)
        ensures
            r == Quality::Default,
    {
        Quality::Default
    }
}

/// The filter that the engine has answered a creation with: its handle, and
/// else the failure, which is the error that the engine has pending, or
/// `FilterCreationFailed` where it has none.
fn created_filter(reply: EngineReply) -> (r: Result<usize, Error>)
    ensures
        r.is_ok() <==> reply.handle != 0,
        r matches Ok(handle) ==> handle == reply.handle,
        r matches Err(e) ==> e == reply.error_or(Error::FilterCreationFailed),
{
    let EngineReply { handle, error } = reply;
    if handle != 0 {
        return Ok(handle);
    }
    match error {
        Some(fault) => Err(Error::OidnError { code: fault.code, message: fault.message }),
        None => Err(Error::FilterCreationFailed),
    }
}

/// Whether the images of a run have the length that the dimensions ask for:
/// three numbers for each pixel, in the output, and in each other image that
/// is given.
pub open spec fn lengths_agree(
    width: u32,
    height: u32,
    color: Option<usize>,
    output: usize,
    albedo: Option<usize>,
    normal: Option<usize>,
) -> bool {
    let n = width * height * 3;
    &&& output == n
    &&& color matches Some(len) ==> len == n
    &&& albedo matches Some(len) ==> len == n
    &&& normal matches Some(len) ==> len == n
}

/// Whether an image that may be given has `n` numbers.
fn length_is(len: Option<usize>, n: usize) -> (r: bool)
    ensures
        r <==> (len matches Some(l) ==> l == n),
{
    match len {
        Some(l) => l == n,
        None => true,
    }
}

/// Checks the lengths of the images of a run against the dimensions.
fn check_lengths(
    width: u32,
    height: u32,
    color: Option<usize>,
    output: usize,
    albedo: Option<usize>,
    normal: Option<usize>,
) -> (r: bool)
    requires
        image_fits(width, height),
    ensures
        r == lengths_agree(width, height, color, output, albedo, normal),
{
    assert(width * height * 3 <= width * height * 12) by (nonlinear_arith)
        requires
            width >= 0,
            height >= 0,
    ;
    assert(0 <= width * height <= width * height * 3) by (nonlinear_arith)
        requires
            width >= 0,
            height >= 0,
    ;
    let n: usize = (width as usize) * (height as usize) * 3;
    output == n && length_is(color, n) && length_is(albedo, n) && length_is(normal, n)
}

/// The parameters of the ray tracing filter.
#[derive(Clone, Copy, Debug)]
pub struct RtParams {
    /// Pixels in a row of the image. Zero until set.
    pub width: u32,
    /// Rows of the image. Zero until set.
    pub height: u32,
    /// Whether the image has high dynamic range.
    pub hdr: bool,
    /// Whether the image is sRGB-encoded.
    pub srgb: bool,
    /// Whether the auxiliary images are free of noise.
    pub clean_aux: bool,
    /// The input scale, as the bits of a 32-bit float; not a number leaves
    /// the choice to the engine.
    pub input_scale: u32,
    /// Trade-off between quality and speed.
    pub quality: Quality,
}

impl RtParams {
    /// The parameters of a new filter: no dimensions, high dynamic range, not
    /// sRGB, auxiliary images not clean, input scale at the engine's choice,
    /// default quality.
    pub open spec fn initial() -> RtParams {
        RtParams {
            width: 0,
            height: 0,
            hdr: true,
            srgb: false,
            clean_aux: false,
            input_scale: AUTO_INPUT_SCALE,
            quality: Quality::Default,
        }
    }

    /// What a run with these parameters on images of these kinds is asked to
    /// do.
    pub open spec fn request(self, in_place: bool, albedo: bool, normal: bool) -> DenoiseRequest {
        DenoiseRequest {
            width: self.width,
            height: self.height,
            quality: self.quality,
            hdr: self.hdr,
            srgb: self.srgb,
            clean_aux: self.clean_aux,
            input_scale: Some(self.input_scale),
            in_place,
            albedo,
            normal,
        }
    }
}

/// The ray tracing filter: its handle and its parameters.
///
/// The parameters are kept here and sent to the engine at the start of each
/// run.
#[derive(Debug)]
pub struct RtFilter<'a> {
    device: &'a OidnDevice,
    raw: usize,
    params: RtParams,
}

impl<'a> RtFilter<'a> {
    /// The engine's handle of the filter.
    pub closed spec fn spec_raw(self) -> usize {
        self.raw
    }

    /// The device that the filter belongs to.
    pub closed spec fn spec_device(self) -> &'a OidnDevice {
        self.device
    }

    /// The parameters of the filter.
    pub closed spec fn params(self) -> RtParams {
        self.params
    }

    /// This filter with other parameters.
    pub closed spec fn with_params(self, params: RtParams) -> Self {
        RtFilter { params, ..self }
    }

    /// A filter with other parameters has those parameters, and the handle
    /// and device that it had.
    pub proof fn lemma_with_params(self, params: RtParams)
        ensures
            self.with_params(params).params() == params,
            self.with_params(params).spec_raw() == self.spec_raw(),
            self.with_params(params).spec_device() == self.spec_device(),
    {
    }

    /// Whether a run on images of these lengths can start: the dimensions
    /// are set, the image bytes can be counted, and the lengths agree with
    /// the dimensions.
    pub open spec fn can_run(
        self,
        color: Option<usize>,
        output: usize,
        albedo: Option<usize>,
        normal: Option<usize>,
    ) -> bool {
        &&& image_fits(self.params().width, self.params().height)
        &&& lengths_agree(self.params().width, self.params().height, color, output, albedo, normal)
    }

    /// The filter that the engine has answered the creation of a ray tracing
    /// filter on `device` with, with the parameters of a new filter. There is
    /// one exactly when the engine returned a handle; else the failure is the
    /// error that the engine has pending, or `FilterCreationFailed` where it
    /// has none.
    pub fn new(device: &'a OidnDevice, reply: EngineReply) -> (r: Result<RtFilter<'a>, Error>)
        ensures
            r.is_ok() <==> reply.handle != 0,
            r matches Ok(filter) ==> {
                &&& filter.spec_raw() == reply.handle
                &&& filter.spec_device() == device
                &&& filter.params() == RtParams::initial()
            },
            r matches Err(e) ==> e == reply.error_or(Error::FilterCreationFailed),
    {
        match created_filter(reply) {
            Ok(raw) => Ok(
                RtFilter {
                    device,
                    raw,
                    params: RtParams {
                        width: 0,
                        height: 0,
                        hdr: true,
                        srgb: false,
                        clean_aux: false,
                        input_scale: AUTO_INPUT_SCALE,
                        quality: Quality::Default,
                    },
                },
            ),
            Err(e) => Err(e),
        }
    }

    /// Sets the dimensions of the image.
    pub fn set_dimensions(&mut self, width: u32, height: u32) -> (r: &mut Self)
        ensures
            *r == old(self).with_params(RtParams { width, height, ..old(self).params() }),
            *final(self) == *final(r),
    {
        proof {
            use_type_invariant(&*self);
        }
        self.params.width = width;
        self.params.height = height;
        self
    }

    /// Sets whether the image has high dynamic range.
    pub fn set_hdr(&mut self, hdr: bool) -> (r: &mut Self)
        ensures
            *r == old(self).with_params(RtParams { hdr, ..old(self).params() }),
            *final(self) == *final(r),
    {
        proof {
            use_type_invariant(&*self);
        }
        self.params.hdr = hdr;
        self
    }

    /// Sets whether the image is sRGB-encoded.
    pub fn set_srgb(&mut self, srgb: bool) -> (r: &mut Self)
        ensures
            *r == old(self).with_params(RtParams { srgb, ..old(self).params() }),
            *final(self) == *final(r),
    {
        proof {
            use_type_invariant(&*self);
        }
        self.params.srgb = srgb;
        self
    }

    /// Sets whether the auxiliary images are free of noise.
    pub fn set_clean_aux(&mut self, clean: bool) -> (r: &mut Self)
        ensures
            *r == old(self).with_params(RtParams { clean_aux: clean, ..old(self).params() }),
            *final(self) == *final(r),
    {
        proof {
            use_type_invariant(&*self);
        }
        self.params.clean_aux = clean;
        self
    }

    /// Sets the input scale, given as the bits of a 32-bit float.
    pub fn set_input_scale(&mut self, scale: u32) -> (r: &mut Self)
        ensures
            *r == old(self).with_params(RtParams { input_scale: scale, ..old(self).params() }),
            *final(self) == *final(r),
    {
        proof {
            use_type_invariant(&*self);
        }
        self.params.input_scale = scale;
        self
    }

    /// Sets the trade-off between quality and speed.
    pub fn set_quality(&mut self, quality: Quality) -> (r: &mut Self)
        ensures
            *r == old(self).with_params(RtParams { quality, ..old(self).params() }),
            *final(self) == *final(r),
    {
        proof {
            use_type_invariant(&*self);
        }
        self.params.quality = quality;
        self
    }

    /// The parameters of the filter.
    pub fn parameters(&self) -> (r: RtParams)
        ensures
            r == self.params(),
    {
        self.params
    }

    /// The engine's handle of the filter, which is not zero.
    pub fn raw(&self) -> (r: usize)
        ensures
            r == self.spec_raw(),
            r != 0,
    {
        proof {
            use_type_invariant(self);
        }
        self.raw
    }

    #[verifier::type_invariant]
    spec fn well_formed(self) -> bool {
        self.raw != 0
    }

    /// The device that the filter belongs to.
    pub fn device(&self) -> (r: &'a OidnDevice)
        ensures
            r == self.spec_device(),
    {
        self.device
    }

    /// Starts a run that denoises an image of `color` numbers in place.
    pub fn execute_in_place(&self, color: usize) -> (r: Result<(EngineSession, EngineCall), Error>)
        ensures
            r.is_ok() <==> self.can_run(None, color, None, None),
            r matches Err(e) ==> e == Error::InvalidDimensions,
            r matches Ok((session, call)) ==> {
                &&& session@.wf()
                &&& session@ == SessionModel::initial(
                    self.params().request(true, false, false).plan(false),
                    self.spec_raw(),
                )
                &&& call == session@.pending
            },
    {
        self.execute_with_aux(None, color, None, None)
    }

    /// Starts a run that denoises an image of `color` numbers in place, with
    /// auxiliary images of the given lengths.
    pub fn execute_in_place_with_aux(
        &self,
        color: usize,
        albedo: Option<usize>,
        normal: Option<usize>,
    ) -> (r: Result<(EngineSession, EngineCall), Error>)
        ensures
            r.is_ok() <==> self.can_run(None, color, albedo, normal),
            r matches Err(e) ==> e == Error::InvalidDimensions,
            r matches Ok((session, call)) ==> {
                &&& session@.wf()
                &&& session@ == SessionModel::initial(
                    self.params().request(true, albedo.is_some(), normal.is_some()).plan(false),
                    self.spec_raw(),
                )
                &&& call == session@.pending
            },
    {
        self.execute_with_aux(None, color, albedo, normal)
    }

    /// Starts a run that denoises a colour image into an output image, given
    /// by their lengths. Without a colour image the output image is
    /// denoised in place.
    pub fn execute(&self, color: Option<usize>, output: usize) -> (r: Result<
        (EngineSession, EngineCall),
        Error,
    >)
        ensures
            r.is_ok() <==> self.can_run(color, output, None, None),
            r matches Err(e) ==> e == Error::InvalidDimensions,
            r matches Ok((session, call)) ==> {
                &&& session@.wf()
                &&& session@ == SessionModel::initial(
                    self.params().request(color.is_none(), false, false).plan(false),
                    self.spec_raw(),
                )
                &&& call == session@.pending
            },
    {
        self.execute_with_aux(color, output, None, None)
    }

    /// Starts a run that denoises a colour image into an output image with
    /// auxiliary images, all given by their lengths. Without a colour image
    /// the output image is denoised in place.
    ///
    /// Fails with `InvalidDimensions`, before anything is asked of the
    /// engine, exactly when the dimensions are not set, the image has more
    /// bytes than can be counted, or an image does not have three numbers for
    /// each pixel.
    pub fn execute_with_aux(
        &self,
        color: Option<usize>,
        output: usize,
        albedo: Option<usize>,
        normal: Option<usize>,
    ) -> (r: Result<(EngineSession, EngineCall), Error>)
        ensures
            r.is_ok() <==> self.can_run(color, output, albedo, normal),
            r matches Err(e) ==> e == Error::InvalidDimensions,
            r matches Ok((session, call)) ==> {
                &&& session@.wf()
                &&& session@ == SessionModel::initial(
                    self.params().request(
                        color.is_none(),
                        albedo.is_some(),
                        normal.is_some(),
                    ).plan(false),
                    self.spec_raw(),
                )
                &&& call == session@.pending
            },
    {
        let params = self.params;
        if params.width == 0 || params.height == 0 {
            return Err(Error::InvalidDimensions);
        }
        if crate::plan::image_size(params.width, params.height).is_none() {
            return Err(Error::InvalidDimensions);
        }
        if !check_lengths(params.width, params.height, color, output, albedo, normal) {
            return Err(Error::InvalidDimensions);
        }
        let request = DenoiseRequest {
            width: params.width,
            height: params.height,
            quality: params.quality,
            hdr: params.hdr,
            srgb: params.srgb,
            clean_aux: params.clean_aux,
            input_scale: Some(params.input_scale),
            in_place: color.is_none(),
            albedo: albedo.is_some(),
            normal: normal.is_some(),
        };
        EngineSession::begin(&request, Some(self.raw))
    }
}

/// The parameters of the lightmap filter.
#[derive(Clone, Copy, Debug)]
pub struct LightmapParams {
    /// Pixels in a row of the lightmap. Zero until set.
    pub width: u32,
    /// Rows of the lightmap. Zero until set.
    pub height: u32,
    /// Whether the lightmap holds directional data.
    pub directional: bool,
}

/// The filter for ray traced lightmaps: its handle and its parameters.
#[derive(Debug)]
pub struct RtLightmapFilter<'a> {
    device: &'a OidnDevice,
    raw: usize,
    params: LightmapParams,
}

impl<'a> RtLightmapFilter<'a> {
    /// The engine's handle of the filter.
    pub closed spec fn spec_raw(self) -> usize {
        self.raw
    }

    /// The device that the filter belongs to.
    pub closed spec fn spec_device(self) -> &'a OidnDevice {
        self.device
    }

    /// The parameters of the filter.
    pub closed spec fn params(self) -> LightmapParams {
        self.params
    }

    /// This filter with other parameters.
    pub closed spec fn with_params(self, params: LightmapParams) -> Self {
        RtLightmapFilter { params, ..self }
    }

    /// A filter with other parameters has those parameters, and the handle
    /// and device that it had.
    pub proof fn lemma_with_params(self, params: LightmapParams)
        ensures
            self.with_params(params).params() == params,
            self.with_params(params).spec_raw() == self.spec_raw(),
            self.with_params(params).spec_device() == self.spec_device(),
    {
    }

    /// Whether a run on images of these lengths can start: the dimensions
    /// are set, the image bytes can be counted, and the lengths agree with
    /// the dimensions.
    pub open spec fn can_run(self, color: Option<usize>, output: usize) -> bool {
        &&& image_fits(self.params().width, self.params().height)
        &&& lengths_agree(self.params().width, self.params().height, color, output, None, None)
    }

    /// The filter that the engine has answered the creation of a lightmap
    /// filter on `device` with, without dimensions and not directional. There
    /// is one exactly when the engine returned a handle; else the failure is
    /// the error that the engine has pending, or `FilterCreationFailed` where
    /// it has none.
    pub fn new(device: &'a OidnDevice, reply: EngineReply) -> (r: Result<
        RtLightmapFilter<'a>,
        Error,
    >)
        ensures
            r.is_ok() <==> reply.handle != 0,
            r matches Ok(filter) ==> {
                &&& filter.spec_raw() == reply.handle
                &&& filter.spec_device() == device
                &&& filter.params() == (LightmapParams {
                    width: 0,
                    height: 0,
                    directional: false,
                })
            },
            r matches Err(e) ==> e == reply.error_or(Error::FilterCreationFailed),
    {
        match created_filter(reply) {
            Ok(raw) => Ok(
                RtLightmapFilter {
                    device,
                    raw,
                    params: LightmapParams { width: 0, height: 0, directional: false },
                },
            ),
            Err(e) => Err(e),
        }
    }

    /// Sets the dimensions of the lightmap.
    pub fn set_dimensions(&mut self, width: u32, height: u32) -> (r: &mut Self)
        ensures
            *r == old(self).with_params(LightmapParams { width, height, ..old(self).params() }),
            *final(self) == *final(r),
    {
        proof {
            use_type_invariant(&*self);
        }
        self.params.width = width;
        self.params.height = height;
        self
    }

    /// Sets whether the lightmap holds directional data.
    pub fn set_directional(&mut self, directional: bool) -> (r: &mut Self)
        ensures
            *r == old(self).with_params(LightmapParams { directional, ..old(self).params() }),
            *final(self) == *final(r),
    {
        proof {
            use_type_invariant(&*self);
        }
        self.params.directional = directional;
        self
    }

    /// The parameters of the filter.
    pub fn parameters(&self) -> (r: LightmapParams)
        ensures
            r == self.params(),
    {
        self.params
    }

    /// The engine's handle of the filter, which is not zero.
    pub fn raw(&self) -> (r: usize)
        ensures
            r == self.spec_raw(),
            r != 0,
    {
        proof {
            use_type_invariant(self);
        }
        self.raw
    }

    #[verifier::type_invariant]
    spec fn well_formed(self) -> bool {
        self.raw != 0
    }

    /// The device that the filter belongs to.
    pub fn device(&self) -> (r: &'a OidnDevice)
        ensures
            r == self.spec_device(),
    {
        self.device
    }

    /// Starts a run that denoises a lightmap of `color` numbers in place.
    pub fn execute_in_place(&self, color: usize) -> (r: Result<(EngineSession, EngineCall), Error>)
        ensures
            r.is_ok() <==> self.can_run(None, color),
            r matches Err(e) ==> e == Error::InvalidDimensions,
            r matches Ok((session, call)) ==> {
                &&& session@.wf()
                &&& session@ == SessionModel::initial(
                    lightmap_plan(
                        self.params().width,
                        self.params().height,
                        self.params().directional,
                        true,
                        false,
                    ),
                    self.spec_raw(),
                )
                &&& call == session@.pending
            },
    {
        self.execute(None, color)
    }

    /// Starts a run that denoises a lightmap into an output image, given by
    /// their lengths. Without a colour image the output image is denoised in
    /// place.
    ///
    /// Fails with `InvalidDimensions`, before anything is asked of the
    /// engine, exactly when the dimensions are not set, the image has more
    /// bytes than can be counted, or an image does not have three numbers for
    /// each pixel.
    pub fn execute(&self, color: Option<usize>, output: usize) -> (r: Result<
        (EngineSession, EngineCall),
        Error,
    >)
        ensures
            r.is_ok() <==> self.can_run(color, output),
            r matches Err(e) ==> e == Error::InvalidDimensions,
            r matches Ok((session, call)) ==> {
                &&& session@.wf()
                &&& session@ == SessionModel::initial(
                    lightmap_plan(
                        self.params().width,
                        self.params().height,
                        self.params().directional,
                        color.is_none(),
                        false,
                    ),
                    self.spec_raw(),
                )
                &&& call == session@.pending
            },
    {
        let params = self.params;
        if params.width == 0 || params.height == 0 {
            return Err(Error::InvalidDimensions);
        }
        if crate::plan::image_size(params.width, params.height).is_none() {
            return Err(Error::InvalidDimensions);
        }
        if !check_lengths(params.width, params.height, color, output, None, None) {
            return Err(Error::InvalidDimensions);
        }
        EngineSession::begin_lightmap(
            params.width,
            params.height,
            params.directional,
            color.is_none(),
            Some(self.raw),
        )
    }
}

/// Whether `name` can be handed to the engine as a name: it holds no NUL
/// character.
pub open spec fn is_engine_name(name: Seq<char>) -> bool {
    forall|i: int| 0 <= i < name.len() ==> name[i] != '\0'
}

/// Checks that `name` holds no NUL character.
pub fn check_engine_name(name: &str) -> (r: bool)
    ensures
        r == is_engine_name(name@),
{
    let len: usize = name.unicode_len();
    let mut i: usize = 0;
    while i < len
        invariant
            i <= len,
            len == name@.len(),
            forall|j: int| 0 <= j < i ==> name@[j] != '\0',
        decreases len - i,
    {
        if name.get_char(i) == '\0' {
            return false;
        }
        i += 1;
    }
    true
}

/// A filter of any kind, known by the engine's name for the kind.
#[derive(Debug)]
pub struct Filter<'a> {
    device: &'a OidnDevice,
    raw: usize,
}

impl<'a> Filter<'a> {
    /// The engine's handle of the filter.
    pub closed spec fn spec_raw(self) -> usize {
        self.raw
    }

    /// The device that the filter belongs to.
    pub closed spec fn spec_device(self) -> &'a OidnDevice {
        self.device
    }

    /// The filter that the engine has answered the creation of a filter of
    /// the kind `kind_name` on `device` with. A name with a NUL character
    /// in it is the name of no kind of filter: for it the engine is not asked
    /// and the reply is of no account. Fails with `FilterCreationFailed` for
    /// such a name; else, when the engine returned no handle, with the error
    /// that the engine has pending, or `FilterCreationFailed` where it has
    /// none.
    pub fn new(device: &'a OidnDevice, kind_name: &str, reply: EngineReply) -> (r: Result<
        Filter<'a>,
        Error,
    >)
        ensures
            r.is_ok() <==> is_engine_name(kind_name@) && reply.handle != 0,
            r matches Ok(filter) ==> filter.spec_raw() == reply.handle && filter.spec_device()
                == device,
            r matches Err(e) ==> e == (if is_engine_name(kind_name@) {
                reply.error_or(Error::FilterCreationFailed)
            } else {
                Error::FilterCreationFailed
            }),
    {
        if !check_engine_name(kind_name) {
            return Err(Error::FilterCreationFailed);
        }
        match created_filter(reply) {
            Ok(raw) => Ok(Filter { device, raw }),
            Err(e) => Err(e),
        }
    }

    /// The engine's handle of the filter, which is not zero.
    pub fn raw(&self) -> (r: usize)
        ensures
            r == self.spec_raw(),
            r != 0,
    {
        proof {
            use_type_invariant(self);
        }
        self.raw
    }

    #[verifier::type_invariant]
    spec fn well_formed(self) -> bool {
        self.raw != 0
    }

    /// The device that the filter belongs to.
    pub fn device(&self) -> (r: &'a OidnDevice)
        ensures
            r == self.spec_device(),
    {
        self.device
    }
}

} // verus!
