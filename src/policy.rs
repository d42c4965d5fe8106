//! The credential-refresh retry policy shared by every service operation.
//!
//! A response with status 401 leads to one credential refresh and one more
//! attempt of the same operation; whatever that attempt yields is final.

use vstd::prelude::*;
use crate::error::{ErrorView, ServiceError};
use crate::response::{image_error_message, image_error_text};

verus! {

/// The status with which the service refuses a credential.
pub const UNAUTHORIZED: u16 = 401;

/// The service operations that the policy governs.
#[derive(Clone, Copy, PartialEq, Eq, Structural, Debug)]
pub enum Operation {
    CreateConversation,
    Chat,
    GenerateImage,
}

/// What to do after a response status.
#[derive(Clone, Copy, PartialEq, Eq, Structural, Debug)]
pub enum Step {
    /// Read the success body.
    Proceed,
    /// Obtain and store a new credential, then repeat the operation with it.
    RefreshAndRetry,
    /// Stop with the error that the response describes.
    Fail,
}

/// A status in the 2xx range.
pub open spec fn is_success(status: u16) -> bool {
    200 <= status <= 299
}

/// The step taken on `status`, given whether the credential was already
/// refreshed during this operation.
pub open spec fn decide(refreshed: bool, status: u16) -> Step {
    if is_success(status) {
        Step::Proceed
    } else if status == UNAUTHORIZED && !refreshed {
        Step::RefreshAndRetry
    } else {
        Step::Fail
    }
}

/// The steps taken for the successive response statuses of one operation:
/// the run stops at the first step that is not a refresh.
pub open spec fn run_steps(refreshed: bool, statuses: Seq<u16>) -> Seq<Step>
    decreases statuses.len(),
{
    if statuses.len() == 0 {
        Seq::empty()
    } else {
        let d = decide(refreshed, statuses[0]);
        if d == Step::RefreshAndRetry {
            seq![d] + run_steps(true, statuses.drop_first())
        } else {
            seq![d]
        }
    }
}

/// How many credential refreshes (store updates) a run of steps makes.
pub open spec fn refresh_count(steps: Seq<Step>) -> nat
    decreases steps.len(),
{
    if steps.len() == 0 {
        0
    } else {
        (if steps[0] == Step::RefreshAndRetry {
            1nat
        } else {
            0nat
        }) + refresh_count(steps.drop_first())
    }
}

/// The error for a failed response of `op`: a 401 is reported as refused
/// credentials with the body; any other status with the body, or for image
/// requests with the message extracted from it.
pub open spec fn failure_view(op: Operation, status: u16, body: Seq<char>) -> ErrorView {
    if status == UNAUTHORIZED {
        ErrorView::Unauthorized { status, body }
    } else if op == Operation::GenerateImage {
        ErrorView::Api { status, message: image_error_text(body) }
    } else {
        ErrorView::Api { status, message: body }
    }
}

/// The retry state of one operation.
pub struct RetryPolicy {
    /// Whether the credential was already refreshed for this operation.
    pub refreshed: bool,
}

impl RetryPolicy {
    /// The state at the start of an operation: no refresh yet.
    pub fn new() -> (r: RetryPolicy)
        ensures
            !r.refreshed,
    {
        RetryPolicy { refreshed: false }
    }

    /// Decides what follows a response with `status`, and records a refresh.
    pub fn on_status(&mut self, status: u16) -> (r: Step)
        ensures
            r == decide(old(self).refreshed, status),
            final(self).refreshed == (old(self).refreshed || r == Step::RefreshAndRetry),
    {
        if 200 <= status && status <= 299 {
            Step::Proceed
        } else if status == UNAUTHORIZED && !self.refreshed {
            self.refreshed = true;
            Step::RefreshAndRetry
        } else {
            Step::Fail
        }
    }
}

/// Builds the error for a failed response of `op`.
pub fn failure_error(op: Operation, status: u16, body: &str) -> (r: ServiceError)
    ensures
        r@ == failure_view(op, status, body@),
{
    if status == UNAUTHORIZED {
        ServiceError::Unauthorized { status, body: String::from_str(body) }
    } else if op == Operation::GenerateImage {
        ServiceError::Api { status, message: image_error_message(body) }
    } else {
        ServiceError::Api { status, message: String::from_str(body) }
    }
}

/// Retries are bounded: whatever the service answers, one operation makes
/// at most two attempts and refreshes the credential at most once.
pub proof fn lemma_retry_bounded(statuses: Seq<u16>)
    ensures
        run_steps(false, statuses).len() <= 2,
        refresh_count(run_steps(false, statuses)) <= 1,
{
    if statuses.len() > 0 && decide(false, statuses[0]) == Step::RefreshAndRetry {
        let rest = statuses.drop_first();
        let tail = run_steps(true, rest);
        let all = run_steps(false, statuses);
        assert(all == seq![Step::RefreshAndRetry] + tail);
        if rest.len() > 0 {
            assert(decide(true, rest[0]) != Step::RefreshAndRetry);
            assert(tail == seq![decide(true, rest[0])]);
            assert(tail.drop_first() =~= Seq::<Step>::empty());
            assert(refresh_count(Seq::<Step>::empty()) == 0);
            assert(tail[0] != Step::RefreshAndRetry);
            assert(refresh_count(tail) == 0);
        } else {
            assert(tail.len() == 0);
        }
        assert(all.drop_first() =~= tail);
        assert(refresh_count(all) == 1 + refresh_count(tail));
    } else if statuses.len() > 0 {
        let all = run_steps(false, statuses);
        assert(all.len() == 1);
        assert(all.drop_first() =~= Seq::<Step>::empty());
        assert(refresh_count(all) == (if all[0] == Step::RefreshAndRetry { 1nat } else { 0nat }) + refresh_count(all.drop_first()));
    }
}

/// A refused first attempt is followed by exactly one refresh and one more
/// attempt, and the operation ends as that second attempt decides; when the
/// second attempt succeeds, the operation goes on to read its body.
pub proof fn lemma_refresh_then_retry(second: u16)
    ensures
        run_steps(false, seq![UNAUTHORIZED, second]) == seq![Step::RefreshAndRetry, decide(true, second)],
        refresh_count(run_steps(false, seq![UNAUTHORIZED, second])) == 1,
        is_success(second) ==> decide(true, second) == Step::Proceed,
{
    let s = seq![UNAUTHORIZED, second];
    assert(s[0] == UNAUTHORIZED);
    assert(decide(false, s[0]) == Step::RefreshAndRetry);
    assert(s.drop_first() =~= seq![second]);
    let d = decide(true, second);
    assert(d != Step::RefreshAndRetry);
    assert(seq![second][0] == second);
    assert(run_steps(true, seq![second]) == seq![d]);
    let steps = run_steps(false, s);
    assert(steps == seq![Step::RefreshAndRetry] + seq![d]);
    assert(steps =~= seq![Step::RefreshAndRetry, d]);
    assert(steps.drop_first() =~= seq![d]);
    assert(seq![d].drop_first() =~= Seq::<Step>::empty());
    assert(refresh_count(Seq::<Step>::empty()) == 0);
    assert(seq![d][0] == d);
    assert(refresh_count(seq![d]) == 0);
    assert(refresh_count(steps) == 1);
}

/// A 401 on both attempts ends the operation after the second attempt, with
/// that attempt's refused-credential error.
pub proof fn lemma_unauthorized_twice(op: Operation, second_body: Seq<char>)
    ensures
        run_steps(false, seq![UNAUTHORIZED, UNAUTHORIZED]) == seq![Step::RefreshAndRetry, Step::Fail],
        failure_view(op, UNAUTHORIZED, second_body) == (ErrorView::Unauthorized {
            status: UNAUTHORIZED,
            body: second_body,
        }),
{
    lemma_refresh_then_retry(UNAUTHORIZED);
}

} // verus!
