//! The run-completion polling protocol.
//!
//! A run is a remote resource whose `status` the service moves through an
//! open-ended set of strings. Exactly two of them, `"queued"` and
//! `"in_progress"`, mean the run is still being worked on; any other string
//! settles the poll. The poller fetches the run's status repeatedly, keeps
//! fetching while it reads a waiting status, and stops at the first fetch
//! that settles it: a non-waiting status, or a failure of the fetch itself.

use vstd::prelude::*;
use crate::codec::json_str_field;
use crate::codec::str_field_of;
use crate::http::FetchOutcome;
use crate::strutil::str_eq;

verus! {

/// Why one poll attempt, or the whole poll, failed.
#[derive(Clone, Copy, PartialEq, Eq, Structural, Debug)]
pub enum PollError {
    /// The fetch itself failed: connection, TLS or timeout.
    Transport,
    /// The response body was not a JSON document carrying a string `status`.
    Decode,
    /// The configured attempt bound was reached while the run was waiting.
    AttemptsExhausted,
}

/// Whether a status string means the run is still being worked on.
pub open spec fn is_waiting_status(s: Seq<char>) -> bool {
    s == "queued"@ || s == "in_progress"@
}

/// Whether a status string means the run is still being worked on. Every
/// other string — known or unknown to the service — settles the poll.
pub fn status_is_waiting(status: &str) -> (b: bool)
    ensures
        b == is_waiting_status(status@),
{
    str_eq(status, "queued") || str_eq(status, "in_progress")
}

/// One decoded fetch of the run resource: the status string it reported, or
/// the failure of the attempt (transport, or a body without a status).
pub enum RunFetch {
    Status(String),
    Failure(PollError),
}

/// Whether this fetch settles the poll: every failure does, and so does
/// every status outside the waiting set.
pub open spec fn fetch_settles(f: RunFetch) -> bool {
    match f {
        RunFetch::Status(s) => !is_waiting_status(s@),
        RunFetch::Failure(_) => true,
    }
}

/// The position of the first settling fetch in a trace, or the trace's
/// length when every fetch reports a waiting status.
pub open spec fn first_settling(events: Seq<RunFetch>) -> int
    decreases events.len(),
{
    if events.len() == 0 {
        0
    } else if fetch_settles(events[0]) {
        0
    } else {
        1 + first_settling(events.drop_first())
    }
}

/// `first_settling` finds the first settling fetch: nothing before it
/// settles, and the fetch there (when there is one) does.
pub proof fn lemma_first_settling(events: Seq<RunFetch>)
    ensures
        0 <= first_settling(events) <= events.len(),
        forall|j: int| 0 <= j < first_settling(events) ==> !fetch_settles(events[j]),
        first_settling(events) < events.len() ==> fetch_settles(events[first_settling(events)]),
    decreases events.len(),
{
    if events.len() == 0 {
    } else if fetch_settles(events[0]) {
    } else {
        lemma_first_settling(events.drop_first());
        let k = first_settling(events);
        assert forall|j: int| 0 <= j < k implies !fetch_settles(events[j]) by {
            if j > 0 {
                assert(events.drop_first()[j - 1] == events[j]);
            }
        }
        if k < events.len() {
            assert(events.drop_first()[k - 1] == events[k]);
        }
    }
}

/// The first settling fetch is exactly the position where a settling fetch
/// follows only non-settling ones.
pub proof fn lemma_first_settling_at(events: Seq<RunFetch>, k: int)
    requires
        0 <= k < events.len(),
        forall|j: int| 0 <= j < k ==> !fetch_settles(events[j]),
        fetch_settles(events[k]),
    ensures
        first_settling(events) == k,
{
    lemma_first_settling(events);
    let f = first_settling(events);
    if f < k {
        assert(!fetch_settles(events[f]));
    }
    if k < f {
        assert(!fetch_settles(events[k]));
    }
}

/// What the poll of a fetch trace comes to: the first settling fetch
/// together with the number of fetches made up to and including it, or
/// nothing when the whole trace reports waiting statuses.
pub open spec fn poll_result_spec(events: Seq<RunFetch>) -> Option<(RunFetch, int)> {
    let k = first_settling(events);
    if k < events.len() {
        Some((events[k], k + 1))
    } else {
        None
    }
}

/// Runs the polling protocol over an already decoded trace of fetches:
/// consumes fetches in order while they report a waiting status, and stops
/// at the first one that settles the poll, returning its status or failure
/// together with how many fetches were consumed. Returns `None` when every
/// fetch in the trace reported a waiting status.
pub fn poll_run_trace(events: &Vec<RunFetch>) -> (r: Option<(Result<String, PollError>, usize)>)
    ensures
        match poll_result_spec(events@) {
            Some(p) => r matches Some(q) && q.1 as int == p.1 && (match p.0 {
                RunFetch::Status(s) => q.0 matches Ok(t) && t@ == s@,
                RunFetch::Failure(e) => q.0 matches Err(e2) && e2 == e,
            }),
            None => r is None,
        },
{
    let n = events.len();
    let mut i: usize = 0;
    while i < n
        invariant
            n == events@.len(),
            i <= n,
            forall|j: int| 0 <= j < i ==> !fetch_settles(events@[j]),
        decreases n - i,
    {
        match &events[i] {
            RunFetch::Status(s) => {
                if !status_is_waiting(s.as_str()) {
                    proof {
                        lemma_first_settling_at(events@, i as int);
                    }
                    return Some((Ok(s.clone()), i + 1));
                }
            },
            RunFetch::Failure(e) => {
                proof {
                    lemma_first_settling_at(events@, i as int);
                }
                return Some((Err(*e), i + 1));
            },
        }
        i = i + 1;
    }
    proof {
        lemma_first_settling(events@);
    }
    None
}

/// Law: over a trace whose every status but the last is a waiting one and
/// whose last is any other string, the poll returns that last status and
/// makes exactly one fetch per element of the trace.
pub proof fn lemma_poll_returns_last_status(events: Seq<RunFetch>)
    requires
        events.len() > 0,
        forall|j: int| 0 <= j < events.len() - 1
            ==> ((#[trigger] events[j]) matches RunFetch::Status(s) && is_waiting_status(s@)),
        events.last() matches RunFetch::Status(s) && !is_waiting_status(s@),
    ensures
        poll_result_spec(events) == Some((events.last(), events.len() as int)),
{
    lemma_first_settling_at(events, events.len() - 1);
}

/// Law: when the first fetch already settles the poll, the poll returns its
/// outcome immediately, after that one fetch.
pub proof fn lemma_poll_immediate_on_terminal(events: Seq<RunFetch>)
    requires
        events.len() > 0,
        fetch_settles(events[0]),
    ensures
        poll_result_spec(events) == Some((events[0], 1int)),
{
    lemma_first_settling_at(events, 0);
}

/// Law: when fetch `k` fails while every earlier fetch reported a waiting
/// status, the poll surfaces that failure after exactly `k + 1` fetches and
/// consumes none of the fetches after it.
pub proof fn lemma_poll_stops_on_failure(events: Seq<RunFetch>, k: int)
    requires
        0 <= k < events.len(),
        forall|j: int| 0 <= j < k
            ==> ((#[trigger] events[j]) matches RunFetch::Status(s) && is_waiting_status(s@)),
        events[k] matches RunFetch::Failure(e),
    ensures
        poll_result_spec(events) == Some((events[k], k + 1)),
{
    lemma_first_settling_at(events, k);
}

/// Decodes one fetch attempt of the run resource: the status string its
/// body carries, or the failure of the attempt.
pub fn decode_run_fetch(fetch: &FetchOutcome) -> (r: RunFetch)
    ensures
        match fetch {
            FetchOutcome::TransportFailure => r == RunFetch::Failure(PollError::Transport),
            FetchOutcome::Body(b) => match str_field_of(b@, "status"@) {
                Some(s) => r matches RunFetch::Status(t) && t@ == s,
                None => r == RunFetch::Failure(PollError::Decode),
            },
        },
{
    match fetch {
        FetchOutcome::TransportFailure => RunFetch::Failure(PollError::Transport),
        FetchOutcome::Body(b) => match json_str_field(b.as_str(), "status") {
            Some(s) => RunFetch::Status(s),
            None => RunFetch::Failure(PollError::Decode),
        },
    }
}

/// The polling policy: how many fetch attempts may be made in all, and how
/// long the caller is to wait between two of them.
#[derive(Clone, Copy, PartialEq, Eq, Structural, Debug)]
pub struct PollPolicy {
    pub max_attempts: u64,
    pub delay_ms: u64,
}

/// The decision after one fetch attempt.
#[derive(Debug)]
pub enum PollDecision {
    /// The run is still waiting: fetch again, after the policy's delay.
    Continue,
    /// The run settled with this status: stop and report it.
    Finished(String),
    /// The attempt failed, or the attempt bound was reached: stop.
    Failed(PollError),
}

/// The poller's state across one run's poll: the policy it was started
/// with, and how many fetch attempts it has consumed.
pub struct RunPoller {
    pub policy: PollPolicy,
    pub attempts: u64,
}

impl RunPoller {
    /// The poller never counts more attempts than its policy allows.
    pub open spec fn wf(self) -> bool {
        self.attempts <= self.policy.max_attempts
    }

    /// A fresh poller: no attempt consumed yet.
    pub fn new(policy: PollPolicy) -> (p: RunPoller)
        ensures
            p.policy == policy,
            p.attempts == 0,
            p.wf(),
    {
        RunPoller { policy, attempts: 0 }
    }

    /// Whether another fetch attempt may be made.
    pub fn can_fetch(&self) -> (b: bool)
        ensures
            b == (self.attempts < self.policy.max_attempts),
    {
        self.attempts < self.policy.max_attempts
    }

    /// Consumes one fetch attempt and decides how the poll goes on: a
    /// transport failure or a body without a string `status` stops it with
    /// that failure; a non-waiting status finishes it with that status; a
    /// waiting status continues it, unless this attempt was the last one the
    /// policy allows.
    pub fn on_fetch(&mut self, fetch: &FetchOutcome) -> (d: PollDecision)
        requires
            old(self).wf(),
            old(self).attempts < old(self).policy.max_attempts,
        ensures
            final(self).policy == old(self).policy,
            final(self).attempts == old(self).attempts + 1,
            final(self).wf(),
            match fetch {
                FetchOutcome::TransportFailure => d == PollDecision::Failed(PollError::Transport),
                FetchOutcome::Body(b) => match str_field_of(b@, "status"@) {
                    None => d == PollDecision::Failed(PollError::Decode),
                    Some(s) => if !is_waiting_status(s) {
                        d matches PollDecision::Finished(t) && t@ == s
                    } else if old(self).attempts + 1 == old(self).policy.max_attempts {
                        d == PollDecision::Failed(PollError::AttemptsExhausted)
                    } else {
                        d == PollDecision::Continue
                    },
                },
            },
    {
        self.attempts = self.attempts + 1;
        match fetch {
            FetchOutcome::TransportFailure => PollDecision::Failed(PollError::Transport),
            FetchOutcome::Body(b) => match json_str_field(b.as_str(), "status") {
                None => PollDecision::Failed(PollError::Decode),
                Some(s) => {
                    if !status_is_waiting(s.as_str()) {
                        PollDecision::Finished(s)
                    } else if self.attempts == self.policy.max_attempts {
                        PollDecision::Failed(PollError::AttemptsExhausted)
                    } else {
                        PollDecision::Continue
                    }
                },
            },
        }
    }
}

} // verus!
