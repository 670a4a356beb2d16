//! One run of a filter on the engine.
//!
//! An [`EngineSession`] decides which call comes next: the caller makes the
//! call that the session names, tells the session what the engine answered,
//! and gets the next call, until the session is finished. The session keeps
//! every resource that the engine hands out during the run and asks for the
//! release of each of them before it finishes, whatever the engine answers.

use crate::engine::EngineCall;
use crate::engine::EngineFault;
use crate::engine::EngineOp;
use crate::engine::EngineReply;
use crate::engine::Held;
use crate::engine::Resource;
use crate::error::Error;
use crate::plan::image_fits;
use crate::plan::image_size;
use crate::plan::lightmap_ops;
use crate::plan::lightmap_plan;
use crate::plan::op_fits;
use crate::plan::plan_ok;
use crate::plan::request_plan;
use crate::plan::DenoiseRequest;
use vstd::prelude::*;

verus! {

/// The handle under which `held` has `resource`, the latest if it has
/// several; zero if it has none.
pub open spec fn handle_of(held: Seq<Held>, resource: Resource) -> usize
    decreases held.len(),
{
    if held.len() == 0 {
        0
    } else if held.last().resource == resource {
        held.last().handle
    } else {
        handle_of(held.drop_last(), resource)
    }
}

/// The call that makes `op` with the resources in `held`.
pub open spec fn call_for(op: EngineOp, held: Seq<Held>, filter: usize) -> EngineCall {
    EngineCall {
        op,
        target: match op.uses() {
            Some(role) => handle_of(held, Resource::Buffer(role)),
            None => 0,
        },
        filter,
    }
}

/// Whether `held` has this resource.
pub open spec fn holds(held: Seq<Held>, resource: Resource) -> bool {
    exists|k: int| 0 <= k < held.len() && (#[trigger] held[k]).resource == resource
}

/// Under a resource that `held` has, it has a handle, and where no handle in
/// it is zero, that handle is not zero.
pub proof fn lemma_handle_of_held(held: Seq<Held>, resource: Resource)
    requires
        holds(held, resource),
        forall|i: int| 0 <= i < held.len() ==> (#[trigger] held[i]).handle != 0,
    ensures
        handle_of(held, resource) != 0,
        exists|k: int|
            0 <= k < held.len() && #[trigger] held[k] == (Held {
                resource,
                handle: handle_of(held, resource),
            }),
    decreases held.len(),
{
    let k = choose|k: int| 0 <= k < held.len() && (#[trigger] held[k]).resource == resource;
    if held.last().resource == resource {
        assert(held[held.len() - 1] == Held { resource, handle: handle_of(held, resource) });
    } else {
        let shorter = held.drop_last();
        assert(shorter[k].resource == resource);
        lemma_handle_of_held(shorter, resource);
        let m = choose|m: int|
            0 <= m < shorter.len() && #[trigger] shorter[m] == (Held {
                resource,
                handle: handle_of(shorter, resource),
            });
        assert(held[m] == shorter[m]);
    }
}

/// The state of a session: the operations to make, the call that is under
/// way, and the resources held.
pub struct SessionModel {
    /// The operations of the run, in order.
    pub plan: Seq<EngineOp>,
    /// Index in `plan` of the latest operation that was called.
    pub pc: int,
    /// The resources held, in the order in which the engine handed them out.
    /// A resource whose release is under way is no longer among them.
    pub held: Seq<Held>,
    /// Handle of the filter; zero before it is created.
    pub filter: usize,
    /// The first failure of the run.
    pub failure: Option<Error>,
    /// The call that is under way.
    pub pending: EngineCall,
}

/// What a session does next.
pub enum ModelStep {
    /// The session goes on in this state, with its pending call.
    Continue(SessionModel),
    /// The session is over, with this result.
    Finished(Result<(), Error>),
}

impl SessionModel {
    /// The state in which a session starts on `plan`: the first operation is
    /// under way, nothing is held, nothing has failed.
    pub open spec fn initial(plan: Seq<EngineOp>, filter: usize) -> SessionModel {
        SessionModel {
            plan,
            pc: 0,
            held: Seq::empty(),
            filter,
            failure: None,
            pending: call_for(plan[0], Seq::empty(), filter),
        }
    }

    /// Whether the call under way is a release.
    pub open spec fn releasing(self) -> bool {
        self.pending.op is Release
    }

    /// The state is one that a session can be in: the plan can be run, no
    /// handle held is zero, and as long as nothing is being released nothing
    /// has failed, the pending call is that of the plan, and everything that
    /// the plan has acquired so far is held.
    pub open spec fn wf(self) -> bool {
        &&& 0 <= self.pc < self.plan.len()
        &&& self.plan.len() <= usize::MAX
        &&& plan_ok(self.plan)
        &&& forall|i: int| 0 <= i < self.held.len() ==> (#[trigger] self.held[i]).handle != 0
        &&& self.pending.filter == self.filter
        &&& !self.releasing() ==> {
            &&& self.failure.is_none()
            &&& self.pending == call_for(self.plan[self.pc], self.held, self.filter)
            &&& forall|j: int|
                0 <= j < self.pc && (#[trigger] self.plan[j]).acquires().is_some() ==> holds(
                    self.held,
                    self.plan[j].acquires().unwrap(),
                )
        }
    }

    /// The resource that the engine hands out with its answer to the pending
    /// call.
    pub open spec fn handed_out(self, reply: EngineReply) -> Option<Held> {
        match self.pending.op.acquires() {
            Some(resource) if reply.handle != 0 => Some(Held { resource, handle: reply.handle }),
            _ => None,
        }
    }

    /// The resources held once the answer to the pending call is in.
    pub open spec fn held_after(self, reply: EngineReply) -> Seq<Held> {
        match self.handed_out(reply) {
            Some(held) => self.held.push(held),
            None => self.held,
        }
    }

    /// The filter handle once the answer to the pending call is in.
    pub open spec fn filter_after(self, reply: EngineReply) -> usize {
        if self.pending.op is CreateFilter && reply.handle != 0 {
            reply.handle
        } else {
            self.filter
        }
    }

    /// The first failure of the run once the answer to the pending call is
    /// in.
    pub open spec fn failure_after(self, reply: EngineReply) -> Option<Error> {
        if self.failure.is_some() {
            self.failure
        } else {
            reply.failure(self.pending.op)
        }
    }

    /// What the session does when the engine has answered the pending call:
    /// the next operation of the plan, as long as nothing has failed and the
    /// plan is not at its end; else the release of the resource that was
    /// handed out last; and when none is held any more, the end.
    pub open spec fn step(self, reply: EngineReply) -> ModelStep {
        let held = self.held_after(reply);
        let filter = self.filter_after(reply);
        let failure = self.failure_after(reply);
        if !self.releasing() && failure.is_none() && self.pc + 1 < self.plan.len() {
            ModelStep::Continue(
                SessionModel {
                    plan: self.plan,
                    pc: self.pc + 1,
                    held,
                    filter,
                    failure,
                    pending: call_for(self.plan[self.pc + 1], held, filter),
                },
            )
        } else if held.len() > 0 {
            ModelStep::Continue(
                SessionModel {
                    plan: self.plan,
                    pc: self.pc,
                    held: held.drop_last(),
                    filter,
                    failure,
                    pending: EngineCall {
                        op: EngineOp::Release { resource: held.last().resource },
                        target: held.last().handle,
                        filter,
                    },
                },
            )
        } else {
            ModelStep::Finished(
                match failure {
                    Some(e) => Err(e),
                    None => Ok(()),
                },
            )
        }
    }

    /// A step leads from a state that a session can be in to another such
    /// state.
    pub proof fn lemma_step_keeps_wf(self, reply: EngineReply)
        requires
            self.wf(),
        ensures
            self.step(reply) matches ModelStep::Continue(next) ==> next.wf(),
    {
        let held = self.held_after(reply);
        if let ModelStep::Continue(next) = self.step(reply) {
            assert(op_fits(self.plan.take(self.pc), self.plan[self.pc]));
            if !next.releasing() {
                assert(op_fits(self.plan.take(self.pc + 1), self.plan[self.pc + 1]));
                assert forall|j: int|
                    0 <= j < next.pc && (#[trigger] next.plan[j]).acquires().is_some() implies holds(
                    next.held,
                    next.plan[j].acquires().unwrap(),
                ) by {
                    let resource = self.plan[j].acquires().unwrap();
                    if j < self.pc {
                        let k = choose|k: int|
                            0 <= k < self.held.len() && (#[trigger] self.held[k]).resource
                                == resource;
                        assert(held[k].resource == resource);
                    } else {
                        assert(held[held.len() - 1].resource == resource);
                    }
                }
            }
        }
    }
}

/// A session under way. It always has a call pending.
#[derive(Debug)]
pub struct EngineSession {
    plan: Vec<EngineOp>,
    pc: usize,
    held: Vec<Held>,
    filter: usize,
    failure: Option<Error>,
    pending: EngineCall,
}

/// What the caller of a session does next.
#[derive(Debug)]
pub enum SessionStep {
    /// Make this call, and tell the session what the engine answered.
    Continue(EngineSession, EngineCall),
    /// Nothing: the session is over, with this result.
    Finished(Result<(), Error>),
}

impl View for EngineSession {
    type V = SessionModel;

    closed spec fn view(&self) -> SessionModel {
        SessionModel {
            plan: self.plan@,
            pc: self.pc as int,
            held: self.held@,
            filter: self.filter,
            failure: self.failure,
            pending: self.pending,
        }
    }
}

/// Looks up the handle under which `held` has `resource`.
fn find_handle(held: &Vec<Held>, resource: Resource) -> (r: usize)
    ensures
        r == handle_of(held@, resource),
{
    let mut i: usize = held.len();
    proof {
        assert(held@.subrange(0, i as int) =~= held@);
    }
    while i > 0
        invariant
            i <= held@.len(),
            handle_of(held@, resource) == handle_of(held@.subrange(0, i as int), resource),
        decreases i,
    {
        let ghost prefix = held@.subrange(0, i as int);
        proof {
            assert(prefix.drop_last() =~= held@.subrange(0, i - 1));
            assert(prefix.last() == held@[i - 1]);
        }
        if held[i - 1].resource == resource {
            return held[i - 1].handle;
        }
        i -= 1;
    }
    proof {
        assert(held@.subrange(0, 0).len() == 0);
    }
    0
}

/// Makes the call for `op` with the resources in `held`.
fn resolve(op: EngineOp, held: &Vec<Held>, filter: usize) -> (r: EngineCall)
    ensures
        r == call_for(op, held@, filter),
{
    let target: usize = match op.used_buffer() {
        Some(role) => find_handle(held, Resource::Buffer(role)),
        None => 0,
    };
    EngineCall { op, target, filter }
}

/// The failure that the answer to `op` means.
fn reply_failure(op: EngineOp, handle: usize, error: Option<EngineFault>) -> (r: Option<Error>)
    ensures
        r == (EngineReply { handle, error }).failure(op),
{
    match error {
        Some(fault) => Some(Error::OidnError { code: fault.code, message: fault.message }),
        None => match op.acquired_resource() {
            Some(Resource::Filter) => if handle == 0 {
                Some(Error::FilterCreationFailed)
            } else {
                None
            },
            Some(Resource::Buffer(_)) => if handle == 0 {
                Some(Error::OutOfMemory)
            } else {
                None
            },
            None => None,
        },
    }
}

impl EngineSession {
    /// Starts a session that makes the operations of `plan` with the filter
    /// `filter`; zero where the plan creates the filter itself.
    pub(crate) fn start(plan: Vec<EngineOp>, filter: usize) -> (r: (EngineSession, EngineCall))
        requires
            plan@.len() > 0,
            plan_ok(plan@),
        ensures
            r.0@.wf(),
            r.0@ == SessionModel::initial(plan@, filter),
            r.1 == r.0@.pending,
    {
        let held: Vec<Held> = Vec::new();
        let call = resolve(plan[0], &held, filter);
        assert(plan@.len() <= usize::MAX) by {
            vstd::std_specs::vec::axiom_spec_len(&plan);
        }
        proof {
            assert(op_fits(plan@.take(0), plan@[0]));
        }
        (EngineSession { plan, pc: 0, held, filter, failure: None, pending: call }, call)
    }

    /// Starts a run of the ray tracing filter. With a filter handle the run
    /// uses that filter; without one it creates a filter and releases it at
    /// its end. Fails with `InvalidDimensions` exactly when the image is
    /// empty or has more bytes than can be counted; nothing is asked of the
    /// engine then.
    pub fn begin(request: &DenoiseRequest, filter: Option<usize>) -> (r: Result<
        (EngineSession, EngineCall),
        Error,
    >)
        ensures
            r.is_ok() <==> image_fits(request.width, request.height),
            r matches Err(e) ==> e == Error::InvalidDimensions,
            r matches Ok((session, call)) ==> {
                &&& session@.wf()
                &&& session@ == SessionModel::initial(
                    request.plan(filter.is_none()),
                    filter.unwrap_or(0),
                )
                &&& call == session@.pending
            },
    {
        if request.width == 0 || request.height == 0 {
            return Err(Error::InvalidDimensions);
        }
        let size: usize = match image_size(request.width, request.height) {
            Some(size) => size,
            None => { return Err(Error::InvalidDimensions); },
        };
        let plan: Vec<EngineOp> = request_plan(request, filter.is_none(), size);
        let handle: usize = match filter {
            Some(handle) => handle,
            None => 0,
        };
        Ok(EngineSession::start(plan, handle))
    }

    /// Starts a run of the lightmap filter on an image of this size, in
    /// place or from a colour image of its own. With a filter handle the run
    /// uses that filter; without one it creates a filter and releases it at
    /// its end. Fails with `InvalidDimensions`
    /// exactly when the image is empty or has more bytes than can be
    /// counted; nothing is asked of the engine then.
    pub fn begin_lightmap(
        width: u32,
        height: u32,
        directional: bool,
        in_place: bool,
        filter: Option<usize>,
    ) -> (r: Result<(EngineSession, EngineCall), Error>)
        ensures
            r.is_ok() <==> image_fits(width, height),
            r matches Err(e) ==> e == Error::InvalidDimensions,
            r matches Ok((session, call)) ==> {
                &&& session@.wf()
                &&& session@ == SessionModel::initial(
                    lightmap_plan(width, height, directional, in_place, filter.is_none()),
                    filter.unwrap_or(0),
                )
                &&& call == session@.pending
            },
    {
        if width == 0 || height == 0 {
            return Err(Error::InvalidDimensions);
        }
        let size: usize = match image_size(width, height) {
            Some(size) => size,
            None => { return Err(Error::InvalidDimensions); },
        };
        let plan: Vec<EngineOp> = lightmap_ops(
            width,
            height,
            directional,
            in_place,
            filter.is_none(),
            size,
        );
        let handle: usize = match filter {
            Some(handle) => handle,
            None => 0,
        };
        Ok(EngineSession::start(plan, handle))
    }

    /// The call that is under way.
    pub fn pending(&self) -> (r: EngineCall)
        ensures
            r == self@.pending,
            self@.wf(),
    {
        proof {
            use_type_invariant(self);
        }
        self.pending
    }

    #[verifier::type_invariant]
    spec fn well_formed(self) -> bool {
        self@.wf()
    }

    /// Takes the engine's answer to the pending call and says what to do
    /// next.
    pub fn step(self, reply: EngineReply) -> (r: SessionStep)
        ensures
            self@.wf(),
            match r {
                SessionStep::Continue(next, call) => {
                    &&& self@.step(reply) == ModelStep::Continue(next@)
                    &&& call == next@.pending
                    &&& next@.wf()
                },
                SessionStep::Finished(outcome) => self@.step(reply) == ModelStep::Finished(
                    outcome,
                ),
            },
    {
        proof {
            use_type_invariant(&self);
        }
        let ghost before = self@;
        let EngineSession { plan, pc, held, filter, failure, pending } = self;
        let mut held = held;
        let mut filter = filter;
        let EngineReply { handle, error } = reply;
        let releasing: bool = match pending.op {
            EngineOp::Release { .. } => true,
            _ => false,
        };
        if handle != 0 {
            match pending.op.acquired_resource() {
                Some(resource) => {
                    held.push(Held { resource, handle });
                    match resource {
                        Resource::Filter => {
                            filter = handle;
                        },
                        Resource::Buffer(_) => {},
                    }
                },
                None => {},
            }
        }
        let failure: Option<Error> = match failure {
            Some(e) => Some(e),
            None => reply_failure(pending.op, handle, error),
        };
        proof {
            assert(held@ == before.held_after(reply));
            assert(filter == before.filter_after(reply));
            assert(failure == before.failure_after(reply));
        }
        if !releasing && failure.is_none() && pc + 1 < plan.len() {
            let call = resolve(plan[pc + 1], &held, filter);
            proof {
                before.lemma_step_keeps_wf(reply);
            }
            SessionStep::Continue(
                EngineSession { plan, pc: pc + 1, held, filter, failure, pending: call },
                call,
            )
        } else if held.len() > 0 {
            let last: Held = held[held.len() - 1];
            let ghost full = held@;
            held.pop();
            let call = EngineCall {
                op: EngineOp::Release { resource: last.resource },
                target: last.handle,
                filter,
            };
            proof {
                assert(held@ =~= full.drop_last());
                before.lemma_step_keeps_wf(reply);
            }
            SessionStep::Continue(
                EngineSession { plan, pc, held, filter, failure, pending: call },
                call,
            )
        } else {
            SessionStep::Finished(
                match failure {
                    Some(e) => Err(e),
                    None => Ok(()),
                },
            )
        }
    }
}

} // verus!
