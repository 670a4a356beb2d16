//! The first stage of a call: reading the surfaces.
//!
//! For each surface the stage names these GPU calls, in order: create the
//! readback buffer, copy the surface to it, ask for the mapping, poll until
//! the mapping has completed or failed, get the mapped bytes, unmap. The
//! wait for the mapping is the one place where a call blocks on the GPU.

use crate::codec::decode;
use crate::codec::ChannelBuffers;
use crate::denoising::Denoising;
use crate::denoising::DenoisingModel;
use crate::engine::BufferRole;
use crate::engine::EngineCall;
use crate::error::Error;
use crate::gpu::map_failure;
use crate::gpu::GpuCall;
use crate::gpu::GpuReply;
use crate::gpu::MapStatus;
use crate::job::ImageWords;
use crate::job::Images;
use crate::job::Job;
use vstd::prelude::*;

verus! {

/// Where the reading of a surface stands: the call that is under way.
#[derive(Clone, Copy, Debug, PartialEq, Eq, Structural)]
pub enum ReadPhase {
    /// `CreateReadbackBuffer`.
    Creating,
    /// `CopySurfaceToBuffer`.
    Copying,
    /// `MapAsync`.
    Mapping,
    /// `Poll`.
    Polling,
    /// `GetMappedBytes`.
    Fetching,
    /// `Unmap`.
    Unmapping,
}

/// The first stage: the surfaces of the call are read and decoded, one after
/// the other.
#[derive(Debug)]
pub struct ReadingSurface {
    job: Job,
    surface: BufferRole,
    phase: ReadPhase,
    images: Images,
    failure: Option<Error>,
}

/// The state of the first stage.
pub struct ReadingModel {
    /// The job.
    pub job: Job,
    /// The surface that is being read: `Color` for the input.
    pub surface: BufferRole,
    /// The call that is under way.
    pub phase: ReadPhase,
    /// What has been decoded so far.
    pub images: ImageWords,
    /// Why the surface could not be decoded, to be reported once its buffer
    /// is unmapped.
    pub failure: Option<Error>,
}

/// What the caller does next in the first stage.
#[derive(Debug)]
pub enum ReadingStep {
    /// Make this GPU call, and tell the stage what came of it.
    Continue(ReadingSurface, GpuCall),
    /// Go on to the second stage, with this engine call.
    Denoise(Denoising, EngineCall),
    /// Nothing: the call has failed.
    Failed(Error),
}

impl View for ReadingSurface {
    type V = ReadingModel;

    closed spec fn view(&self) -> ReadingModel {
        ReadingModel {
            job: self.job,
            surface: self.surface,
            phase: self.phase,
            images: self.images@,
            failure: self.failure,
        }
    }
}

impl ReadingModel {
    /// The state is one that the stage can be in.
    pub open spec fn wf(self) -> bool {
        self.job.wf() && self.surface != BufferRole::Output
    }

    /// The state in which the stage starts: the input is the surface to
    /// read, the creation of its readback buffer is under way, and nothing is
    /// decoded yet.
    pub open spec fn initial(job: Job) -> ReadingModel {
        ReadingModel {
            job,
            surface: BufferRole::Color,
            phase: ReadPhase::Creating,
            images: ImageWords {
                color: Seq::empty(),
                alpha: Seq::empty(),
                albedo: Seq::empty(),
                normal: Seq::empty(),
            },
            failure: None,
        }
    }

    /// The call that creates the readback buffer of a surface.
    pub open spec fn create_call(self) -> GpuCall {
        GpuCall::CreateReadbackBuffer { byte_size: self.job.padded_bytes() as u64 }
    }

    /// Whether `r` is what the stage does when `reply` has come of the call
    /// under way.
    ///
    /// A failed or lost mapping ends the work at once. Mapped bytes that are
    /// not as many as the padded surface has end it with `InvalidDimensions`,
    /// after the buffer is unmapped. When the last surface is read and
    /// unmapped, the run on the engine starts, with a filter of its own.
    pub open spec fn steps_to(self, reply: GpuReply, r: ReadingStep) -> bool {
        match self.phase {
            ReadPhase::Creating => r matches ReadingStep::Continue(next, call) && next@
                == (ReadingModel { phase: ReadPhase::Copying, ..self }) && call
                == (GpuCall::CopySurfaceToBuffer {
                surface: self.surface,
                row_stride: self.job.layout.spec_padded() as u32,
                rows: self.job.height,
            }),
            ReadPhase::Copying => r matches ReadingStep::Continue(next, call) && next@
                == (ReadingModel { phase: ReadPhase::Mapping, ..self }) && call
                == GpuCall::MapAsync,
            ReadPhase::Mapping => r matches ReadingStep::Continue(next, call) && next@
                == (ReadingModel { phase: ReadPhase::Polling, ..self }) && call == GpuCall::Poll,
            ReadPhase::Polling => match reply.map {
                MapStatus::Pending => r matches ReadingStep::Continue(next, call) && next@ == self
                    && call == GpuCall::Poll,
                MapStatus::Completed => r matches ReadingStep::Continue(next, call) && next@
                    == (ReadingModel { phase: ReadPhase::Fetching, ..self }) && call
                    == GpuCall::GetMappedBytes,
                MapStatus::Failed(e) => r == ReadingStep::Failed(Error::BufferMapFailed(e)),
                MapStatus::Lost => r matches ReadingStep::Failed(Error::BufferMapFailed(_)),
            },
            ReadPhase::Fetching => r matches ReadingStep::Continue(next, call) && call
                == GpuCall::Unmap && next@ == (if reply.bytes@.len() == self.job.padded_bytes() {
                ReadingModel {
                    phase: ReadPhase::Unmapping,
                    images: self.images.with_surface(
                        self.surface,
                        self.job.decoded(reply.bytes@).0,
                        self.job.decoded(reply.bytes@).1,
                    ),
                    ..self
                }
            } else {
                ReadingModel {
                    phase: ReadPhase::Unmapping,
                    failure: Some(Error::InvalidDimensions),
                    ..self
                }
            }),
            ReadPhase::Unmapping => match self.failure {
                Some(e) => r == ReadingStep::Failed(e),
                None => match self.job.surface_after(self.surface) {
                    Some(surface) => r matches ReadingStep::Continue(next, call) && next@
                        == (ReadingModel { surface, phase: ReadPhase::Creating, ..self }) && call
                        == self.create_call(),
                    None => r matches ReadingStep::Denoise(denoising, call) && denoising@
                        == DenoisingModel::initial(self.job, self.images) && call
                        == denoising@.session.pending,
                },
            },
        }
    }
}

impl ReadingSurface {
    #[verifier::type_invariant]
    spec fn well_formed(self) -> bool {
        self@.wf()
    }

    /// Starts the stage on a job.
    pub(crate) fn start(job: Job) -> (r: (ReadingSurface, GpuCall))
        requires
            job.wf(),
        ensures
            r.0@ == ReadingModel::initial(job),
            r.1 == r.0@.create_call(),
    {
        proof {
            job.lemma_sizes();
        }
        let byte_size: u64 = (job.layout.padded_bytes_per_row() as u64) * (job.height as u64);
        let images = Images {
            color: Vec::new(),
            alpha: Vec::new(),
            albedo: Vec::new(),
            normal: Vec::new(),
        };
        let reading = ReadingSurface {
            job,
            surface: BufferRole::Color,
            phase: ReadPhase::Creating,
            images,
            failure: None,
        };
        (reading, GpuCall::CreateReadbackBuffer { byte_size })
    }

    /// The job.
    pub fn job(&self) -> (r: Job)
        ensures
            r == self@.job,
            r.wf(),
    {
        proof {
            use_type_invariant(self);
        }
        self.job
    }

    /// The surface that is being read: `Color` for the input.
    pub fn surface(&self) -> (r: BufferRole)
        ensures
            r == self@.surface,
    {
        self.surface
    }

    /// The call that is under way.
    pub fn phase(&self) -> (r: ReadPhase)
        ensures
            r == self@.phase,
    {
        self.phase
    }

    /// Takes what came of the call under way and says what to do next.
    pub fn step(self, reply: GpuReply) -> (r: ReadingStep)
        ensures
            self@.wf(),
            self@.steps_to(reply, r),
            r matches ReadingStep::Continue(next, _) ==> next@.wf(),
            r matches ReadingStep::Denoise(denoising, _) ==> denoising@.wf(),
    {
        proof {
            use_type_invariant(&self);
        }
        let ReadingSurface { job, surface, phase, images, failure } = self;
        let GpuReply { map, bytes } = reply;
        proof {
            job.lemma_sizes();
        }
        let stride: u32 = job.layout.padded_bytes_per_row();
        match phase {
            ReadPhase::Creating => ReadingStep::Continue(
                ReadingSurface { job, surface, phase: ReadPhase::Copying, images, failure },
                GpuCall::CopySurfaceToBuffer { surface, row_stride: stride, rows: job.height },
            ),
            ReadPhase::Copying => ReadingStep::Continue(
                ReadingSurface { job, surface, phase: ReadPhase::Mapping, images, failure },
                GpuCall::MapAsync,
            ),
            ReadPhase::Mapping => ReadingStep::Continue(
                ReadingSurface { job, surface, phase: ReadPhase::Polling, images, failure },
                GpuCall::Poll,
            ),
            ReadPhase::Polling => match map {
                MapStatus::Pending => ReadingStep::Continue(
                    ReadingSurface { job, surface, phase: ReadPhase::Polling, images, failure },
                    GpuCall::Poll,
                ),
                MapStatus::Completed => ReadingStep::Continue(
                    ReadingSurface { job, surface, phase: ReadPhase::Fetching, images, failure },
                    GpuCall::GetMappedBytes,
                ),
                MapStatus::Failed(e) => ReadingStep::Failed(Error::BufferMapFailed(e)),
                MapStatus::Lost => ReadingStep::Failed(Error::BufferMapFailed(map_failure())),
            },
            ReadPhase::Fetching => {
                let expected: usize = (stride as usize) * (job.height as usize);
                if bytes.len() != expected {
                    return ReadingStep::Continue(
                        ReadingSurface {
                            job,
                            surface,
                            phase: ReadPhase::Unmapping,
                            images,
                            failure: Some(Error::InvalidDimensions),
                        },
                        GpuCall::Unmap,
                    );
                }
                let pixels: usize = (job.width as usize) * (job.height as usize);
                let tight: Vec<u8> = job.layout.unpack(bytes.as_slice(), job.height);
                let mut images = images;
                let mut failure = failure;
                match decode(tight.as_slice(), job.format, pixels) {
                    Ok(buffers) => {
                        let ChannelBuffers { color, alpha } = buffers;
                        match surface {
                            BufferRole::Color => {
                                images.color = color;
                                images.alpha = alpha;
                            },
                            BufferRole::Albedo => {
                                images.albedo = color;
                            },
                            BufferRole::Normal => {
                                images.normal = color;
                            },
                            BufferRole::Output => {},
                        }
                    },
                    Err(e) => {
                        failure = Some(e);
                    },
                }
                ReadingStep::Continue(
                    ReadingSurface { job, surface, phase: ReadPhase::Unmapping, images, failure },
                    GpuCall::Unmap,
                )
            },
            ReadPhase::Unmapping => {
                match failure {
                    Some(e) => { return ReadingStep::Failed(e); },
                    None => {},
                }
                let following: Option<BufferRole> = match surface {
                    BufferRole::Color => if job.albedo {
                        Some(BufferRole::Albedo)
                    } else if job.normal {
                        Some(BufferRole::Normal)
                    } else {
                        None
                    },
                    BufferRole::Albedo => if job.normal {
                        Some(BufferRole::Normal)
                    } else {
                        None
                    },
                    _ => None,
                };
                match following {
                    Some(surface) => {
                        let byte_size: u64 = (stride as u64) * (job.height as u64);
                        ReadingStep::Continue(
                            ReadingSurface {
                                job,
                                surface,
                                phase: ReadPhase::Creating,
                                images,
                                failure: None,
                            },
                            GpuCall::CreateReadbackBuffer { byte_size },
                        )
                    },
                    None => match Denoising::start(job, images) {
                        Ok((denoising, call)) => ReadingStep::Denoise(denoising, call),
                        Err(e) => ReadingStep::Failed(e),
                    },
                }
            },
        }
    }
}

} // verus!
