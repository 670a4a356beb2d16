//! What holds of every run of a session.
//!
//! A run is a session together with the answers that the engine gives to its
//! calls, one after the other. Whatever the plan and whatever the answers,
//! a run comes to an end after a bounded number of calls, and by then the
//! session has asked for the release of every resource that the engine
//! handed out, each exactly once.

use crate::engine::BufferRole;
use crate::engine::EngineReply;
use crate::engine::Held;
use crate::engine::Resource;
use crate::plan::lemma_allocates_take;
use crate::plan::op_fits;
use crate::session::lemma_handle_of_held;
use crate::session::ModelStep;
use crate::session::SessionModel;
use vstd::multiset::Multiset;
use vstd::prelude::*;
use vstd::seq_lib::to_multiset_build;

verus! {

/// The resource whose release the session has under way, if it has one.
pub open spec fn given_back(state: SessionModel) -> Option<Held> {
    if state.releasing() {
        Some(Held { resource: state.pending.op->resource, handle: state.pending.target })
    } else {
        None
    }
}

/// `set` with `item` added, where there is one.
pub open spec fn with_item(set: Multiset<Held>, item: Option<Held>) -> Multiset<Held> {
    match item {
        Some(held) => set.insert(held),
        None => set,
    }
}

/// Whether the session comes to its end with the last of `replies`, and not
/// before.
pub open spec fn finishes(state: SessionModel, replies: Seq<EngineReply>) -> bool
    decreases replies.len(),
{
    if replies.len() == 0 {
        false
    } else {
        match state.step(replies[0]) {
            ModelStep::Continue(next) => finishes(next, replies.drop_first()),
            ModelStep::Finished(_) => replies.len() == 1,
        }
    }
}

/// The resources that the engine hands out in `replies`, as long as the
/// session goes on.
pub open spec fn acquired(state: SessionModel, replies: Seq<EngineReply>) -> Multiset<Held>
    decreases replies.len(),
{
    if replies.len() == 0 {
        Multiset::empty()
    } else {
        let later = match state.step(replies[0]) {
            ModelStep::Continue(next) => acquired(next, replies.drop_first()),
            ModelStep::Finished(_) => Multiset::empty(),
        };
        with_item(later, state.handed_out(replies[0]))
    }
}

/// The resources whose release the session asks for while it takes
/// `replies`.
pub open spec fn released(state: SessionModel, replies: Seq<EngineReply>) -> Multiset<Held>
    decreases replies.len(),
{
    if replies.len() == 0 {
        Multiset::empty()
    } else {
        match state.step(replies[0]) {
            ModelStep::Continue(next) => with_item(
                released(next, replies.drop_first()),
                given_back(next),
            ),
            ModelStep::Finished(_) => Multiset::empty(),
        }
    }
}

/// Calls that a session makes at most from this state on, the one under way
/// included.
pub open spec fn calls_left(state: SessionModel) -> nat {
    if state.releasing() {
        state.held.len() + 1
    } else {
        (2 * (state.plan.len() - state.pc) + state.held.len() + 1) as nat
    }
}

/// When a run has come to its end, the session has asked for the release of
/// what it held at the start and of everything that the engine handed out
/// since, each as often as it was handed out, and of nothing else: whatever
/// the engine answered.
pub proof fn lemma_all_released(state: SessionModel, replies: Seq<EngineReply>)
    requires
        state.wf(),
        finishes(state, replies),
    ensures
        released(state, replies) == state.held.to_multiset().add(acquired(state, replies)),
    decreases replies.len(),
{
    let reply = replies[0];
    let got = state.handed_out(reply);
    let held = state.held_after(reply);
    assert(held.to_multiset() == with_item(state.held.to_multiset(), got)) by {
        if let Some(item) = got {
            to_multiset_build(state.held, item);
        }
    }
    match state.step(reply) {
        ModelStep::Continue(next) => {
            state.lemma_step_keeps_wf(reply);
            lemma_all_released(next, replies.drop_first());
            let later_acquired = acquired(next, replies.drop_first());
            let later_released = released(next, replies.drop_first());
            if !state.releasing() && state.failure_after(reply).is_none() && state.pc + 1
                < state.plan.len() {
                assert(op_fits(state.plan.take(state.pc + 1), state.plan[state.pc + 1]));
            }
            if next.releasing() {
                let last = held.last();
                assert(held =~= held.drop_last().push(last));
                to_multiset_build(held.drop_last(), last);
                assert(given_back(next) == Some(last));
                assert(released(state, replies) =~= state.held.to_multiset().add(
                    acquired(state, replies),
                ));
            } else {
                assert(released(state, replies) =~= state.held.to_multiset().add(
                    acquired(state, replies),
                ));
            }
        },
        ModelStep::Finished(_) => {
            assert(held.len() == 0);
            assert(got.is_none());
            assert(state.held =~= Seq::empty());
            state.held.to_multiset_ensures();
            vstd::multiset::lemma_multiset_empty_len(state.held.to_multiset());
            assert(state.held.to_multiset() =~= Multiset::empty());
            assert(released(state, replies) =~= state.held.to_multiset().add(
                acquired(state, replies),
            ));
        },
    }
}

/// From the start of a session to its end, the engine hands out exactly the
/// resources whose release the session asks for: as many allocations as
/// releases, whatever the engine answered.
pub proof fn lemma_acquired_is_released(state: SessionModel, replies: Seq<EngineReply>)
    requires
        state.wf(),
        state.held.len() == 0,
        finishes(state, replies),
    ensures
        acquired(state, replies) == released(state, replies),
        acquired(state, replies).len() == released(state, replies).len(),
{
    lemma_all_released(state, replies);
    assert(state.held.to_multiset() =~= Multiset::empty()) by {
        state.held.to_multiset_ensures();
        vstd::multiset::lemma_multiset_empty_len(state.held.to_multiset());
    }
    assert(released(state, replies) =~= acquired(state, replies));
}

/// Every run comes to an end: whatever the engine answers, the session is
/// over after at most `calls_left` answers.
pub proof fn lemma_run_ends(state: SessionModel, replies: Seq<EngineReply>)
    requires
        state.wf(),
        replies.len() >= calls_left(state),
    ensures
        exists|n: int| 0 < n <= calls_left(state) && finishes(state, #[trigger] replies.take(n)),
    decreases replies.len(),
{
    let reply = replies[0];
    match state.step(reply) {
        ModelStep::Continue(next) => {
            state.lemma_step_keeps_wf(reply);
            assert(calls_left(next) < calls_left(state));
            lemma_run_ends(next, replies.drop_first());
            let m = choose|m: int|
                0 < m <= calls_left(next) && finishes(next, #[trigger] replies.drop_first().take(m));
            assert(replies.take(m + 1).drop_first() =~= replies.drop_first().take(m));
            assert(replies.take(m + 1)[0] == reply);
            assert(finishes(state, replies.take(m + 1)));
        },
        ModelStep::Finished(_) => {
            assert(replies.take(1)[0] == reply);
            assert(finishes(state, replies.take(1)));
        },
    }
}

/// The output is downloaded only after a synchronization: a download is the
/// next call only when the call before it was `Synchronize` and neither it
/// nor any call before it failed.
pub proof fn lemma_download_follows_synchronize(state: SessionModel, reply: EngineReply)
    requires
        state.wf(),
    ensures
        state.step(reply) matches ModelStep::Continue(next) && next.pending.op is Download ==> {
            &&& state.pending.op is Synchronize
            &&& state.failure_after(reply).is_none()
        },
{
    if let ModelStep::Continue(next) = state.step(reply) {
        if next.pending.op is Download {
            assert(op_fits(state.plan.take(state.pc + 1), state.plan[state.pc + 1]));
            assert(state.plan.take(state.pc + 1).last() == state.plan[state.pc]);
        }
    }
}

/// After a failure the session does no more work: from the first answer that
/// means a failure on, every call is a release, and the run ends with that
/// first failure.
pub proof fn lemma_failure_ends_work(state: SessionModel, reply: EngineReply)
    requires
        state.wf(),
        state.failure_after(reply).is_some(),
    ensures
        match state.step(reply) {
            ModelStep::Continue(next) => next.releasing() && next.failure == state.failure_after(
                reply,
            ),
            ModelStep::Finished(outcome) => outcome == Err::<(), _>(
                state.failure_after(reply).unwrap(),
            ),
        },
{
}

/// A call that reads, writes or binds a buffer names a buffer that the
/// session holds for that role; its handle is not zero.
pub proof fn lemma_call_targets_held(state: SessionModel, role: BufferRole)
    requires
        state.wf(),
        state.pending.op.uses() == Some(role),
    ensures
        state.pending.target != 0,
        state.held.contains(
            Held { resource: Resource::Buffer(role), handle: state.pending.target },
        ),
{
    assert(op_fits(state.plan.take(state.pc), state.plan[state.pc]));
    lemma_allocates_take(state.plan, state.pc, role);
    let j = choose|j: int|
        0 <= j < state.pc && (#[trigger] state.plan[j]).acquires() == Some(
            Resource::Buffer(role),
        );
    lemma_handle_of_held(state.held, Resource::Buffer(role));
}

} // verus!
