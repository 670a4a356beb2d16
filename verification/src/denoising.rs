//! The second stage of a call: the run on the engine.
//!
//! The stage follows an [`EngineSession`] and keeps the decoded images for
//! it. It is left only when the session is over, and so only when all that
//! the engine handed out is released.

use crate::codec::encode;
use crate::engine::BufferRole;
use crate::engine::EngineCall;
use crate::engine::EngineOp;
use crate::engine::EngineReply;
use crate::error::Error;
use crate::gpu::GpuCall;
use crate::job::ImageWords;
use crate::job::Images;
use crate::job::Job;
use crate::plan::DenoiseRequest;
use crate::session::EngineSession;
use crate::session::ModelStep;
use crate::session::SessionModel;
use crate::session::SessionStep;
use crate::writing::WritingSurface;
use vstd::prelude::*;

verus! {

/// The second stage: the filter runs on the engine.
#[derive(Debug)]
pub struct Denoising {
    job: Job,
    images: Images,
    session: EngineSession,
    output: Option<Vec<u32>>,
}

/// The state of the second stage.
pub struct DenoisingModel {
    /// The job.
    pub job: Job,
    /// The decoded images.
    pub images: ImageWords,
    /// The run on the engine.
    pub session: SessionModel,
    /// The colour words of the denoised image, once downloaded.
    pub output: Option<Seq<u32>>,
}

/// What the caller does next in the second stage.
#[derive(Debug)]
pub enum DenoisingStep {
    /// Make this engine call, and tell the stage what the engine answered.
    Continue(Denoising, EngineCall),
    /// Go on to the third stage, with this GPU call.
    Write(WritingSurface, GpuCall),
    /// Nothing: the call has failed.
    Failed(Error),
}

impl View for Denoising {
    type V = DenoisingModel;

    closed spec fn view(&self) -> DenoisingModel {
        DenoisingModel {
            job: self.job,
            images: self.images@,
            session: self.session@,
            output: match self.output {
                Some(words) => Some(words@),
                None => None,
            },
        }
    }
}

impl DenoisingModel {
    /// The state is one that the stage can be in.
    pub open spec fn wf(self) -> bool {
        self.job.wf() && self.session.wf()
    }

    /// The state in which the stage starts: a run of the ray tracing filter
    /// that creates its own filter has its first call under way, and nothing
    /// is downloaded yet.
    pub open spec fn initial(job: Job, images: ImageWords) -> DenoisingModel {
        DenoisingModel {
            job,
            images,
            session: SessionModel::initial(job.request().plan(true), 0),
            output: None,
        }
    }

    /// The colour words of the denoised image once the call under way is
    /// made: what that call has downloaded, where it is the download.
    pub open spec fn output_after(self, downloaded: Seq<u32>) -> Option<Seq<u32>> {
        if self.session.pending.op is Download {
            Some(downloaded)
        } else {
            self.output
        }
    }

    /// Whether `r` is what the stage does when the engine has answered the
    /// call under way with `reply`, and `downloaded` are the words that a
    /// download has brought.
    ///
    /// The stage goes on as long as the run on the engine does. When the run
    /// is over, the work ends with the failure of the run, if it failed; with
    /// `InvalidDimensions`, if the download did not bring three words for
    /// each pixel; and else goes on to the third stage, with the surface
    /// bytes of the downloaded colour and the alpha of the input.
    pub open spec fn steps_to(
        self,
        reply: EngineReply,
        downloaded: Seq<u32>,
        r: DenoisingStep,
    ) -> bool {
        match self.session.step(reply) {
            ModelStep::Continue(session) => r matches DenoisingStep::Continue(next, call) && next@
                == (DenoisingModel { session, output: self.output_after(downloaded), ..self })
                && call == session.pending,
            ModelStep::Finished(Err(e)) => r == DenoisingStep::Failed(e),
            ModelStep::Finished(Ok(_)) => match self.output_after(downloaded) {
                Some(words) if words.len() == 3 * self.job.pixel_count() => {
                    &&& r matches DenoisingStep::Write(writing, call)
                    &&& writing == WritingSurface::initial(self.job)
                    &&& call matches GpuCall::CreateUploadBuffer { contents }
                    &&& contents@ == self.job.surface_bytes(words, self.images.alpha)
                },
                _ => r == DenoisingStep::Failed(Error::InvalidDimensions),
            },
        }
    }
}

impl Denoising {
    #[verifier::type_invariant]
    spec fn well_formed(self) -> bool {
        self@.wf()
    }

    /// Starts the stage: a run of the ray tracing filter on the decoded
    /// images.
    pub(crate) fn start(job: Job, images: Images) -> (r: Result<(Denoising, EngineCall), Error>)
        requires
            job.wf(),
        ensures
            r matches Ok((denoising, call)) && denoising@ == DenoisingModel::initial(job, images@)
                && denoising@.wf() && call == denoising@.session.pending,
    {
        let request = DenoiseRequest {
            width: job.width,
            height: job.height,
            quality: job.options.quality,
            hdr: job.options.hdr,
            srgb: job.options.srgb,
            clean_aux: false,
            input_scale: job.options.input_scale,
            in_place: false,
            albedo: job.albedo,
            normal: job.normal,
        };
        match EngineSession::begin(&request, None) {
            Ok((session, call)) => Ok((Denoising { job, images, session, output: None }, call)),
            Err(e) => Err(e),
        }
    }

    /// The job.
    pub fn job(&self) -> (r: Job)
        ensures
            r == self@.job,
            r.wf(),
    {
        proof {
            use_type_invariant(self);
        }
        self.job
    }

    /// The words to upload into the buffer of this role; none into the
    /// output buffer.
    pub fn upload_words(&self, role: BufferRole) -> (r: Option<&Vec<u32>>)
        ensures
            match r {
                Some(words) => self@.images.upload(role) == Some(words@),
                None => self@.images.upload(role).is_none(),
            },
    {
        match role {
            BufferRole::Color => Some(&self.images.color),
            BufferRole::Albedo => Some(&self.images.albedo),
            BufferRole::Normal => Some(&self.images.normal),
            BufferRole::Output => None,
        }
    }

    /// Takes the engine's answer to the call under way, and the words that
    /// the call has downloaded, if it was the download, and says what to do
    /// next.
    pub fn step(self, reply: EngineReply, downloaded: Vec<u32>) -> (r: DenoisingStep)
        ensures
            self@.wf(),
            self@.steps_to(reply, downloaded@, r),
            r matches DenoisingStep::Continue(next, _) ==> next@.wf(),
    {
        proof {
            use_type_invariant(&self);
        }
        let Denoising { job, images, session, output } = self;
        proof {
            job.lemma_sizes();
        }
        let is_download: bool = match session.pending().op {
            EngineOp::Download { .. } => true,
            _ => false,
        };
        let output: Option<Vec<u32>> = if is_download {
            Some(downloaded)
        } else {
            output
        };
        match session.step(reply) {
            SessionStep::Continue(next, call) => DenoisingStep::Continue(
                Denoising { job, images, session: next, output },
                call,
            ),
            SessionStep::Finished(Err(e)) => DenoisingStep::Failed(e),
            SessionStep::Finished(Ok(_)) => {
                let words: Vec<u32> = match output {
                    Some(words) => words,
                    None => { return DenoisingStep::Failed(Error::InvalidDimensions); },
                };
                let pixels: usize = (job.width as usize) * (job.height as usize);
                match encode(words.as_slice(), images.alpha.as_slice(), job.format, pixels) {
                    Ok(tight) => {
                        let contents: Vec<u8> = job.layout.pack(tight.as_slice(), job.height);
                        DenoisingStep::Write(
                            WritingSurface::start(&job),
                            GpuCall::CreateUploadBuffer { contents },
                        )
                    },
                    Err(e) => DenoisingStep::Failed(e),
                }
            },
        }
    }
}

/// The second stage is left only when the run on the engine is over: as long
/// as the session goes on, so does the stage, and when the session is
/// finished, the stage ends the work or hands it to the third stage. By then
/// the session has asked for the release of all that the engine handed out.
pub proof fn lemma_left_when_run_is_over(
    state: DenoisingModel,
    reply: EngineReply,
    downloaded: Seq<u32>,
    r: DenoisingStep,
)
    requires
        state.steps_to(reply, downloaded, r),
    ensures
        r is Continue <==> state.session.step(reply) is Continue,
{
}

} // verus!
