//! The third stage of a call: writing the output surface.
//!
//! The stage names two GPU calls: create the upload buffer, which the second
//! stage has filled, and submit its copy to the output surface. The caller
//! need not wait for the copy.

use crate::gpu::GpuCall;
use crate::gpu::GpuReply;
use crate::job::Job;
use vstd::prelude::*;

verus! {

/// Where the writing of the output surface stands: the call that is under
/// way.
#[derive(Clone, Copy, Debug, PartialEq, Eq, Structural)]
pub enum WritePhase {
    /// `CreateUploadBuffer`.
    Creating,
    /// `CopyBufferToSurface`.
    Copying,
}

/// The third stage: the result is sent to the output surface.
#[derive(Clone, Copy, Debug)]
pub struct WritingSurface {
    /// Bytes from one row to the next in the upload buffer.
    pub row_stride: u32,
    /// Rows of the surface.
    pub rows: u32,
    /// The call that is under way.
    pub phase: WritePhase,
}

/// What the caller does next in the third stage.
#[derive(Debug)]
pub enum WritingStep {
    /// Make this GPU call, and tell the stage when it is made.
    Continue(WritingSurface, GpuCall),
    /// Nothing: the call is done. The copy to the output surface is
    /// submitted; the caller need not wait for it.
    Done,
}

impl WritingSurface {
    /// The state in which the stage starts: the creation of the upload
    /// buffer is under way.
    pub open spec fn initial(job: Job) -> WritingSurface {
        WritingSurface {
            row_stride: job.layout.spec_padded() as u32,
            rows: job.height,
            phase: WritePhase::Creating,
        }
    }

    /// Whether `r` is what the stage does when the call under way is made:
    /// after the upload buffer is created, its copy to the output surface is
    /// submitted, and with that the call is done.
    pub open spec fn steps_to(self, r: WritingStep) -> bool {
        match self.phase {
            WritePhase::Creating => r matches WritingStep::Continue(next, call) && next
                == (WritingSurface { phase: WritePhase::Copying, ..self }) && call
                == (GpuCall::CopyBufferToSurface { row_stride: self.row_stride, rows: self.rows }),
            WritePhase::Copying => r is Done,
        }
    }

    /// Starts the stage on a job.
    pub(crate) fn start(job: &Job) -> (r: WritingSurface)
        requires
            job.wf(),
        ensures
            r == WritingSurface::initial(*job),
    {
        WritingSurface {
            row_stride: job.layout.padded_bytes_per_row(),
            rows: job.height,
            phase: WritePhase::Creating,
        }
    }

    /// Takes what came of the call under way and says what to do next.
    pub fn step(self, reply: GpuReply) -> (r: WritingStep)
        ensures
            self.steps_to(r),
    {
        match self.phase {
            WritePhase::Creating => WritingStep::Continue(
                WritingSurface {
                    row_stride: self.row_stride,
                    rows: self.rows,
                    phase: WritePhase::Copying,
                },
                GpuCall::CopyBufferToSurface { row_stride: self.row_stride, rows: self.rows },
            ),
            WritePhase::Copying => WritingStep::Done,
        }
    }
}

} // verus!
