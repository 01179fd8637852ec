//! The supervisor of the feed: what to do with each item that the feed
//! yields, and how long to wait after a failure.

use crate::retry::{waits_never_shrink, RetryPolicy};
use crate::submission::RedditSubmission;
use vstd::prelude::*;

verus! {

/// The seconds between two polls of the feed.
pub const POLL_INTERVAL_SECS: u64 = 5;

/// The seconds after which a poll of the feed is given up.
pub const POLL_TIMEOUT_SECS: u64 = 10;

/// How the feed is read: the seconds between two polls, the seconds after
/// which a poll is given up, if it is given up at all, and the waits between
/// the retries of a poll that failed.
#[derive(Clone, Copy, Debug, PartialEq, Eq, Structural)]
pub struct FeedSettings {
    pub poll_interval_secs: u64,
    pub poll_timeout_secs: Option<u64>,
    pub retry: RetryPolicy,
}

impl FeedSettings {
    /// A poll every five seconds, given up after ten, and retried three
    /// times, after 500, 2500 and 12500 milliseconds.
    pub fn standard() -> (settings: FeedSettings)
        ensures
            settings == (FeedSettings {
                poll_interval_secs: POLL_INTERVAL_SECS,
                poll_timeout_secs: Some(POLL_TIMEOUT_SECS),
                retry: RetryPolicy { base_ms: 5, factor: 100, max_retries: 3 },
            }),
    {
        FeedSettings {
            poll_interval_secs: POLL_INTERVAL_SECS,
            poll_timeout_secs: Some(POLL_TIMEOUT_SECS),
            retry: RetryPolicy::standard(),
        }
    }
}

/// Why the feed yielded no post.
#[derive(Debug, PartialEq, Eq)]
pub enum TransportError {
    /// The poll took too long.
    Timeout { detail: String },
    /// The request did not get through.
    Network { detail: String },
    /// The feed answered with a status that is no success.
    Status { code: u16, body: String },
    /// The answer could not be read.
    Parse { detail: String },
    /// The feed did not accept the credentials.
    Auth { detail: String },
}

/// Where the supervisor stands.
#[derive(Clone, Copy, Debug, PartialEq, Eq, Structural)]
pub enum SupervisorState {
    /// The next item of the feed is awaited.
    Polling,
    /// A wait after a failure is running.
    BackoffWait,
    /// The feed has ended, and with it the supervisor.
    Terminated,
}

/// What happened at the feed.
#[derive(Debug, PartialEq, Eq)]
pub enum FeedEvent {
    /// The feed yielded a post.
    Post(RedditSubmission),
    /// The feed yielded an error.
    Failure(TransportError),
    /// The wait that the supervisor asked for is over.
    WaitElapsed,
    /// The task behind the feed has ended.
    TransportExited,
}

/// What the supervisor asks for.
#[derive(Debug, PartialEq, Eq)]
pub enum SupervisorAction {
    /// Route the post, then await the next item.
    Dispatch(RedditSubmission),
    /// The post carries no link: await the next item.
    Skip,
    /// Report the error, wait, and say when the wait is over.
    Backoff { error: TransportError, delay_ms: u64 },
    /// Await the next item.
    Poll,
    /// Give up: the feed is gone for good.
    Halt,
}

/// The event is none that the supervisor accepts where it stands.
#[derive(Clone, Copy, Debug, PartialEq, Eq, Structural)]
pub struct OutOfTurn;

/// The supervisor as the contracts see it.
pub struct SupervisorModel {
    pub state: SupervisorState,
    /// The failures since the last post, counted up to the number of waits.
    pub failures: nat,
    /// The waits of the retry policy, in milliseconds.
    pub delays: Seq<u64>,
}

/// The wait after a failure that `failures` others went before: the waits of
/// the policy in turn, then its last one again; none without a policy.
pub open spec fn delay_after(delays: Seq<u64>, failures: nat) -> u64 {
    if delays.len() == 0 {
        0
    } else if failures < delays.len() {
        delays[failures as int]
    } else {
        delays.last()
    }
}

/// The count of failures after one more, which stops at the number of waits.
pub open spec fn one_more_failure(delays: Seq<u64>, failures: nat) -> nat {
    if failures < delays.len() {
        failures + 1
    } else {
        failures
    }
}

/// What an event makes of the supervisor and what the supervisor asks for in
/// return; `None` where the event has no place.
pub open spec fn react(m: SupervisorModel, event: FeedEvent) -> Option<
    (SupervisorModel, SupervisorAction),
> {
    match (m.state, event) {
        (SupervisorState::Polling, FeedEvent::Post(post)) => Some(
            (
                SupervisorModel { failures: 0, ..m },
                if post.url is Some {
                    SupervisorAction::Dispatch(post)
                } else {
                    SupervisorAction::Skip
                },
            ),
        ),
        (SupervisorState::Polling, FeedEvent::Failure(error)) => Some(
            (
                SupervisorModel {
                    state: SupervisorState::BackoffWait,
                    failures: one_more_failure(m.delays, m.failures),
                    ..m
                },
                SupervisorAction::Backoff { error, delay_ms: delay_after(m.delays, m.failures) },
            ),
        ),
        (SupervisorState::Polling, FeedEvent::TransportExited) => Some(
            (SupervisorModel { state: SupervisorState::Terminated, ..m }, SupervisorAction::Halt),
        ),
        (SupervisorState::BackoffWait, FeedEvent::WaitElapsed) => Some(
            (SupervisorModel { state: SupervisorState::Polling, ..m }, SupervisorAction::Poll),
        ),
        _ => None,
    }
}

/// The supervisor of the feed.
pub struct StreamSupervisor {
    state: SupervisorState,
    failures: usize,
    delays: Vec<u64>,
}

impl View for StreamSupervisor {
    type V = SupervisorModel;

    closed spec fn view(&self) -> SupervisorModel {
        SupervisorModel {
            state: self.state,
            failures: self.failures as nat,
            delays: self.delays@,
        }
    }
}

impl StreamSupervisor {
    #[verifier::type_invariant]
    spec fn well_formed(&self) -> bool {
        self.failures <= self.delays.len()
    }

    /// A supervisor that awaits the first item and waits after failures as
    /// the policy says.
    pub fn new(policy: &RetryPolicy) -> (supervisor: StreamSupervisor)
        ensures
            supervisor@ == (SupervisorModel {
                state: SupervisorState::Polling,
                failures: 0,
                delays: policy.spec_delays(),
            }),
    {
        StreamSupervisor { state: SupervisorState::Polling, failures: 0, delays: policy.delays() }
    }

    /// Where the supervisor stands.
    pub fn state(&self) -> (state: SupervisorState)
        ensures
            state == self@.state,
    {
        self.state
    }

    /// The failures since the last post, counted up to the number of waits.
    pub fn failures(&self) -> (failures: usize)
        ensures
            failures == self@.failures,
            failures <= self@.delays.len(),
    {
        proof {
            use_type_invariant(self);
        }
        self.failures
    }

    /// Takes an event of the feed and says what is to be done. An event that
    /// has no place where the supervisor stands changes nothing.
    pub fn step(&mut self, event: FeedEvent) -> (outcome: Result<SupervisorAction, OutOfTurn>)
        ensures
            match react(old(self)@, event) {
                Some((model, action)) => final(self)@ == model && outcome == Ok::<
                    SupervisorAction,
                    OutOfTurn,
                >(action),
                None => final(self)@ == old(self)@ && outcome is Err,
            },
    {
        proof {
            use_type_invariant(&*self);
        }
        match self.state {
            SupervisorState::Polling => match event {
                FeedEvent::Post(post) => {
                    self.failures = 0;
                    if post.url.is_some() {
                        Ok(SupervisorAction::Dispatch(post))
                    } else {
                        Ok(SupervisorAction::Skip)
                    }
                },
                FeedEvent::Failure(error) => {
                    let waits = self.delays.len();
                    let delay_ms: u64 = if waits == 0 {
                        0
                    } else if self.failures < waits {
                        self.delays[self.failures]
                    } else {
                        self.delays[waits - 1]
                    };
                    if self.failures < waits {
                        self.failures = self.failures + 1;
                    }
                    self.state = SupervisorState::BackoffWait;
                    Ok(SupervisorAction::Backoff { error, delay_ms })
                },
                FeedEvent::WaitElapsed => Err(OutOfTurn),
                FeedEvent::TransportExited => {
                    self.state = SupervisorState::Terminated;
                    Ok(SupervisorAction::Halt)
                },
            },
            SupervisorState::BackoffWait => match event {
                FeedEvent::WaitElapsed => {
                    self.state = SupervisorState::Polling;
                    Ok(SupervisorAction::Poll)
                },
                _ => Err(OutOfTurn),
            },
            SupervisorState::Terminated => Err(OutOfTurn),
        }
    }
}

/// With a base of at least one, the wait after a failure is never shorter
/// than the wait after the failure before it.
pub proof fn later_failures_wait_no_less(policy: RetryPolicy, failures: nat)
    requires
        policy.base_ms >= 1,
    ensures
        delay_after(policy.spec_delays(), failures) <= delay_after(
            policy.spec_delays(),
            failures + 1,
        ),
{
    if failures + 1 < policy.max_retries {
        waits_never_shrink(policy.base_ms, policy.factor, failures);
    }
}

/// An error of the feed never ends the supervisor: only the end of the task
/// behind the feed does, and nothing is accepted after it.
pub proof fn only_transport_exit_terminates(m: SupervisorModel, event: FeedEvent)
    ensures
        match react(m, event) {
            Some((next, action)) => {
                &&& m.state != SupervisorState::Terminated
                &&& next.delays == m.delays
                &&& (next.state == SupervisorState::Terminated <==> event
                    == FeedEvent::TransportExited)
                &&& (action == SupervisorAction::Halt <==> event == FeedEvent::TransportExited)
            },
            None => true,
        },
{
}

} // verus!
