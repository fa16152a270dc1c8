//! Proved properties of the document workflow's polling behaviour: the
//! attempt budget and backoff schedule, how runs end on completion, error
//! and exhaustion, and the order of the operator-visible output.

use vstd::prelude::*;

use crate::workflow::spec_classify;
use crate::workflow::spec_next_wait;
use crate::workflow::spec_step;
use crate::workflow::run_from_submission;
use crate::workflow::run_polls;
use crate::workflow::DocumentHandle;
use crate::workflow::DocumentWorkflow;
use crate::workflow::Event;
use crate::workflow::JobStatus;
use crate::workflow::Note;
use crate::workflow::PollVerdict;
use crate::workflow::RetryPolicy;
use crate::workflow::RunOutcome;
use crate::workflow::WorkflowState;

verus! {

/// The waits of `n` successive polls: `start`, then growing by factor `m`
/// before each further poll.
pub open spec fn backoff_waits(start: u64, m: u64, n: nat) -> Seq<u64>
    decreases n,
{
    if n == 0 {
        Seq::empty()
    } else {
        seq![start] + backoff_waits(spec_next_wait(start, m), m, (n - 1) as nat)
    }
}

/// A single poll waits exactly the starting wait.
proof fn lemma_backoff_one(start: u64, m: u64)
    ensures
        backoff_waits(start, m, 1) == seq![start],
{
    assert(backoff_waits(spec_next_wait(start, m), m, 0) == Seq::<u64>::empty());
    assert(backoff_waits(start, m, 1) =~= seq![start]);
}

/// A polling run issues at most the policy's remaining attempt budget in
/// status queries, and the waits before them follow the policy's backoff
/// exactly.
pub proof fn lemma_poll_budget(w: DocumentWorkflow, replies: Seq<JobStatus>)
    requires
        w.wf(),
        w.state is Polling,
    ensures
        run_polls(w, replies).2 <= w.policy.max_attempts - w.state->Polling_attempts_made,
        run_polls(w, replies).3 == backoff_waits(
            w.state->Polling_next_wait,
            w.policy.multiplier,
            run_polls(w, replies).2,
        ),
    decreases replies.len(),
{
    let wait = w.state->Polling_next_wait;
    let m = w.policy.multiplier;
    if replies.len() == 0 {
        assert(backoff_waits(wait, m, 0) == Seq::<u64>::empty());
    } else {
        let stepped = spec_step(w, Event::Polled(replies[0]));
        let rest = run_polls(stepped.0, replies.drop_first());
        match spec_classify(replies[0]) {
            PollVerdict::Complete => {
                assert(run_polls(w, replies).3 =~= seq![wait]);
                lemma_backoff_one(wait, m);
            },
            PollVerdict::Faulted(_) => {
                assert(run_polls(w, replies).3 =~= seq![wait]);
                lemma_backoff_one(wait, m);
            },
            PollVerdict::InProgress => {
                if w.state->Polling_attempts_made + 1 < w.policy.max_attempts {
                    lemma_poll_budget(stepped.0, replies.drop_first());
                    assert(run_polls(w, replies).3 =~= seq![wait] + rest.3);
                    assert(backoff_waits(wait, m, (1 + rest.2) as nat) == seq![wait]
                        + backoff_waits(spec_next_wait(wait, m), m, rest.2));
                } else {
                    assert(run_polls(w, replies).3 =~= seq![wait]);
                    lemma_backoff_one(wait, m);
                }
            },
        }
    }
}

/// Under the shipped policy, a run that starts polling fresh issues at most
/// 3 status queries, and the waits before them are exactly 2, 4, 8, in that
/// order.
pub proof fn lemma_standard_poll_budget(w: DocumentWorkflow, replies: Seq<JobStatus>)
    requires
        w.policy == RetryPolicy::spec_standard(),
        w.state matches WorkflowState::Polling { attempts_made: 0, next_wait: 2, .. },
    ensures
        run_polls(w, replies).2 <= 3,
        run_polls(w, replies).3 == seq![2u64, 4u64, 8u64].take(run_polls(w, replies).2 as int),
{
    lemma_poll_budget(w, replies);
    let q = run_polls(w, replies).2;
    assert(spec_next_wait(2, 2) == 4);
    assert(spec_next_wait(4, 2) == 8);
    lemma_backoff_one(8, 2);
    lemma_backoff_one(4, 2);
    lemma_backoff_one(2, 2);
    assert(backoff_waits(2, 2, 0) == Seq::<u64>::empty());
    assert(backoff_waits(4, 2, 2) =~= seq![4u64, 8u64]);
    assert(backoff_waits(2, 2, 2) =~= seq![2u64, 4u64]);
    assert(backoff_waits(2, 2, 3) =~= seq![2u64, 4u64, 8u64]);
    if q == 0 {
        assert(run_polls(w, replies).3 =~= seq![2u64, 4u64, 8u64].take(0));
    } else if q == 1 {
        assert(run_polls(w, replies).3 =~= seq![2u64, 4u64, 8u64].take(1));
    } else if q == 2 {
        assert(run_polls(w, replies).3 =~= seq![2u64, 4u64, 8u64].take(2));
    } else {
        assert(run_polls(w, replies).3 =~= seq![2u64, 4u64, 8u64].take(3));
    }
}

/// When the service reports completion on attempt `k` (and every earlier
/// report is non-terminal), exactly `k` status queries are issued, no more,
/// and the run proceeds to fetch the artifact of the same handle.
pub proof fn lemma_completes_on_attempt(w: DocumentWorkflow, replies: Seq<JobStatus>, k: int)
    requires
        w.wf(),
        w.state is Polling,
        1 <= k <= w.policy.max_attempts - w.state->Polling_attempts_made,
        k <= replies.len(),
        forall|i: int| 0 <= i < k - 1 ==> spec_classify(replies[i]) is InProgress,
        spec_classify(replies[k - 1]) is Complete,
    ensures
        run_polls(w, replies).2 == k,
        run_polls(w, replies).0.state == (WorkflowState::Fetching {
            handle: w.state->Polling_handle,
        }),
    decreases k,
{
    let stepped = spec_step(w, Event::Polled(replies[0]));
    if k == 1 {
        assert(run_polls(stepped.0, replies.drop_first()).2 == 0);
    } else {
        assert(spec_classify(replies[0]) is InProgress);
        lemma_completes_on_attempt(stepped.0, replies.drop_first(), k - 1);
    }
}

/// When the service reports an error message on attempt `k` (and every
/// earlier report is non-terminal), exactly `k` status queries are issued
/// and the run ends at once in failure, surfacing that exact message.
pub proof fn lemma_fails_on_attempt(w: DocumentWorkflow, replies: Seq<JobStatus>, k: int)
    requires
        w.wf(),
        w.state is Polling,
        1 <= k <= w.policy.max_attempts - w.state->Polling_attempts_made,
        k <= replies.len(),
        forall|i: int| 0 <= i < k - 1 ==> spec_classify(replies[i]) is InProgress,
        spec_classify(replies[k - 1]) is Faulted,
    ensures
        run_polls(w, replies).2 == k,
        run_polls(w, replies).0.state == WorkflowState::Finished(
            RunOutcome::Failed { message: spec_classify(replies[k - 1])->0 },
        ),
    decreases k,
{
    let stepped = spec_step(w, Event::Polled(replies[0]));
    if k == 1 {
        assert(run_polls(stepped.0, replies.drop_first()).2 == 0);
    } else {
        assert(spec_classify(replies[0]) is InProgress);
        lemma_fails_on_attempt(stepped.0, replies.drop_first(), k - 1);
    }
}

/// When every allowed attempt reports a non-terminal status, the run ends in
/// a timeout after exhausting exactly its attempt budget, and never reaches
/// a fetch: its output holds nothing but poll statuses and the retry
/// guidance.
pub proof fn lemma_times_out(w: DocumentWorkflow, replies: Seq<JobStatus>)
    requires
        w.wf(),
        w.state is Polling,
        replies.len() >= w.policy.max_attempts - w.state->Polling_attempts_made,
        forall|i: int|
            0 <= i < w.policy.max_attempts - w.state->Polling_attempts_made ==> spec_classify(
                replies[i],
            ) is InProgress,
    ensures
        run_polls(w, replies).0.state == WorkflowState::Finished(RunOutcome::TimedOut),
        run_polls(w, replies).2 == w.policy.max_attempts - w.state->Polling_attempts_made,
        forall|j: int|
            0 <= j < run_polls(w, replies).1.len() ==> (run_polls(w, replies).1[j] is PollStatus
                || run_polls(w, replies).1[j] is RetryGuidance),
    decreases replies.len(),
{
    let rem = w.policy.max_attempts - w.state->Polling_attempts_made;
    assert(spec_classify(replies[0]) is InProgress);
    let stepped = spec_step(w, Event::Polled(replies[0]));
    if rem == 1 {
        assert(run_polls(stepped.0, replies.drop_first()).2 == 0);
    } else {
        lemma_times_out(stepped.0, replies.drop_first());
        let rest = run_polls(stepped.0, replies.drop_first());
        assert(forall|j: int|
            0 <= j < run_polls(w, replies).1.len() ==> (run_polls(w, replies).1[j]
                is PollStatus || run_polls(w, replies).1[j] is RetryGuidance)) by {
            assert(forall|j: int|
                1 <= j < 1 + rest.1.len() ==> run_polls(w, replies).1[j] == rest.1[j - 1]);
        }
    }
}

/// On the fresh path, the handle issued by a successful submission is the
/// first note of the whole run: it is echoed to the operator before any
/// polling output.
pub proof fn lemma_handle_echoed_first(
    w: DocumentWorkflow,
    h: DocumentHandle,
    replies: Seq<JobStatus>,
)
    requires
        w.state is Submitting,
    ensures
        run_from_submission(w, h, replies).1.len() >= 1,
        run_from_submission(w, h, replies).1[0] == (Note::HandleIssued { id: h.id, key: h.key }),
        forall|j: int|
            0 <= j < run_from_submission(w, h, replies).1.len() && run_from_submission(
                w,
                h,
                replies,
            ).1[j] is PollStatus ==> 0 < j,
{
    let first = spec_step(w, Event::Submitted(h));
    assert(first.1 == seq![Note::HandleIssued { id: h.id, key: h.key }]);
    assert(run_from_submission(w, h, replies).1[0] == first.1[0]);
}

} // verus!
