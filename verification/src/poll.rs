//! The status poller: asks for the status of one bundle until the gateway
//! reports landed signatures or the time is up.
//!
//! The poller reads no clock, sends nothing and never sleeps: it is told the
//! time and the outcome of each query, and says what to do next.

use crate::envelope::{call_with_list, JsonRpcRequest};
use crate::error::BundleError;
use crate::status::{landed, landed_signatures, BundleStatus};
use crate::text::texts;
use vstd::prelude::*;

verus! {

/// The pause between two queries, in milliseconds.
pub const POLL_INTERVAL_MS: u64 = 200;

/// The time that has passed at `now_ms` since `started_ms`; nothing on a clock
/// that has run backwards.
pub open spec fn elapsed_ms(started_ms: nat, now_ms: nat) -> nat {
    if now_ms >= started_ms {
        (now_ms - started_ms) as nat
    } else {
        0
    }
}

/// What the poller asks for.
#[derive(Debug, PartialEq, Eq)]
pub enum PollStep {
    /// Make this status query and report its outcome.
    Query(JsonRpcRequest),
    /// Wait for so many milliseconds, then ask the poller again.
    Sleep(u64),
    /// The poll is over: the landed signatures, none where the time was up
    /// first, or the failure of a query.
    Done(Result<Vec<String>, BundleError>),
}

/// A poll in progress.
#[derive(Debug, PartialEq, Eq)]
pub struct LandingPoll {
    bundle_id: String,
    started_ms: u64,
    timeout_ms: u64,
}

/// What a poll in progress is, as plain values.
pub ghost struct LandingPollView {
    pub bundle_id: Seq<char>,
    pub started_ms: u64,
    pub timeout_ms: u64,
}

impl LandingPollView {
    /// Whether the time is up at `now_ms`: the timeout has passed since the
    /// poll began.
    pub open spec fn timed_out(self, now_ms: nat) -> bool {
        elapsed_ms(self.started_ms as nat, now_ms) >= self.timeout_ms
    }

    /// The time that is left at `now_ms` until the time is up.
    pub open spec fn time_left(self, now_ms: nat) -> nat {
        if self.timed_out(now_ms) {
            0
        } else {
            (self.timeout_ms - elapsed_ms(self.started_ms as nat, now_ms)) as nat
        }
    }

    /// The time at which the poll returns if it is asked at `now_ms` and no
    /// query ever sees a landed signature, where every query takes
    /// `query_ms`: the first of the times `now_ms`, `now_ms` and one round,
    /// `now_ms` and two rounds and so on at which the time is up, a round
    /// being one query and one pause.
    pub open spec fn idle_return_time(self, now_ms: nat, query_ms: nat) -> nat
        decreases self.time_left(now_ms),
    {
        if self.timed_out(now_ms) || now_ms < self.started_ms {
            now_ms
        } else {
            self.idle_return_time(now_ms + query_ms + POLL_INTERVAL_MS as nat, query_ms)
        }
    }
}

impl View for LandingPoll {
    type V = LandingPollView;

    closed spec fn view(&self) -> LandingPollView {
        LandingPollView {
            bundle_id: self.bundle_id@,
            started_ms: self.started_ms,
            timeout_ms: self.timeout_ms,
        }
    }
}

/// A poll that never sees a landed signature returns when the timeout has
/// passed, and less than one round after it: it overruns the timeout by less
/// than one query and one pause. A poll whose time is up when it begins
/// returns at once.
pub proof fn lemma_idle_poll_returns_in_time(poll: LandingPollView, now_ms: nat, query_ms: nat)
    requires
        poll.started_ms <= now_ms,
    ensures
        poll.timed_out(poll.idle_return_time(now_ms, query_ms)),
        poll.idle_return_time(now_ms, query_ms) >= now_ms,
        poll.timed_out(now_ms) ==> poll.idle_return_time(now_ms, query_ms) == now_ms,
        !poll.timed_out(now_ms) ==> poll.idle_return_time(now_ms, query_ms) < poll.started_ms
            + poll.timeout_ms + query_ms + POLL_INTERVAL_MS,
    decreases poll.time_left(now_ms),
{
    if !poll.timed_out(now_ms) {
        lemma_idle_poll_returns_in_time(
            poll,
            now_ms + query_ms + POLL_INTERVAL_MS as nat,
            query_ms,
        );
    }
}

/// What follows the outcome of a status query for the bundle `bundle_id`:
/// landed signatures of that bundle end the poll, and so does a failure,
/// which is handed on as it came; records that report no landed signature of
/// the bundle are followed by a pause.
pub open spec fn poll_reaction(
    bundle_id: Seq<char>,
    outcome: Result<Vec<BundleStatus>, BundleError>,
) -> PollStep {
    match outcome {
        Ok(records) => match landed(records@, bundle_id) {
            Some(signatures) => PollStep::Done(Ok(signatures)),
            None => PollStep::Sleep(POLL_INTERVAL_MS),
        },
        Err(error) => PollStep::Done(Err(error)),
    }
}

impl LandingPoll {
    /// Begins to wait, at `now_ms` and for at most `timeout_ms`, for the
    /// bundle `bundle_id` to land.
    pub fn start(bundle_id: String, timeout_ms: u64, now_ms: u64) -> (poll: LandingPoll)
        ensures
            poll@ == (LandingPollView { bundle_id: bundle_id@, started_ms: now_ms, timeout_ms }),
    {
        LandingPoll { bundle_id, started_ms: now_ms, timeout_ms }
    }

    /// What to do at `now_ms`: where the time is up, the poll ends with no
    /// signatures; else the status of the bundle, and of it alone, is asked
    /// for.
    pub fn check(&self, now_ms: u64) -> (step: PollStep)
        ensures
            self@.timed_out(now_ms as nat) ==> (step matches PollStep::Done(Ok(signatures))
                && signatures@.len() == 0),
            !self@.timed_out(now_ms as nat) ==> (step matches PollStep::Query(request) && request@
                == call_with_list("getBundleStatuses"@, seq![self@.bundle_id])),
    {
        let elapsed: u64 = if now_ms >= self.started_ms {
            now_ms - self.started_ms
        } else {
            0
        };
        if elapsed >= self.timeout_ms {
            PollStep::Done(Ok(Vec::new()))
        } else {
            let mut ids: Vec<String> = Vec::new();
            ids.push(self.bundle_id.clone());
            assert(texts(ids@) =~= seq![self@.bundle_id]);
            PollStep::Query(JsonRpcRequest::get_bundle_statuses(ids))
        }
    }

    /// Takes the outcome of the status query and says what follows.
    pub fn observe(&self, outcome: Result<Vec<BundleStatus>, BundleError>) -> (step: PollStep)
        ensures
            step == poll_reaction(self@.bundle_id, outcome),
    {
        match outcome {
            Ok(records) => match landed_signatures(records, self.bundle_id.as_str()) {
                Some(signatures) => PollStep::Done(Ok(signatures)),
                None => PollStep::Sleep(POLL_INTERVAL_MS),
            },
            Err(error) => PollStep::Done(Err(error)),
        }
    }
}

} // verus!
