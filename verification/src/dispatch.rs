//! Routing a post to the competitions it belongs to, and the steps of each
//! relay: deliver, let the channel settle, look up the message that replies
//! attach to, and put the relay on record.

use crate::competition::{Competition, CompetitionName, Profile};
use crate::filter::{evaluate_lowered, qualifies};
use crate::store::{fresh_record, grows_to, recorded, GoalSubmission, Record, ReplayStore};
use crate::submission::{Post, RedditSubmission};
use crate::supervisor::OutOfTurn;
use crate::text::lowercase_of;
use vstd::prelude::*;

verus! {

/// The seconds that a channel is given to settle between a delivery and the
/// lookup of the message that replies attach to.
pub const SETTLE_SECS: u64 = 20;

/// A competition that a post is relayed for: its place among the configured
/// competitions, and its name.
#[derive(Clone, Copy, Debug, PartialEq, Eq, Structural)]
pub struct Target {
    pub profile: usize,
    pub competition: CompetitionName,
}

/// The competitions as the rules see them.
pub open spec fn profile_views(profiles: Seq<Competition>) -> Seq<Profile> {
    profiles.map_values(|c: Competition| c@)
}

/// Whether the competition at place `i` is among the targets of `plan`.
pub open spec fn routes_to(plan: Seq<Target>, i: int) -> bool {
    exists|k: int| 0 <= k < plan.len() && (#[trigger] plan[k]).profile == i
}

/// Whether `plan` names the competitions among `profiles` that `post` is a
/// highlight of: each of them once, in their order, and no other.
pub open spec fn is_route(post: Post, profiles: Seq<Profile>, plan: Seq<Target>) -> bool {
    &&& forall|k: int|
        0 <= k < plan.len() ==> {
            &&& (#[trigger] plan[k]).profile < profiles.len()
            &&& plan[k].competition == profiles[plan[k].profile as int].name
            &&& qualifies(post, profiles[plan[k].profile as int])
        }
    &&& forall|a: int, b: int|
        0 <= a < b < plan.len() ==> (#[trigger] plan[a]).profile < (#[trigger] plan[b]).profile
    &&& forall|i: int|
        0 <= i < profiles.len() && qualifies(post, #[trigger] profiles[i]) ==> routes_to(plan, i)
}

/// Finds every competition that the post is a highlight of. A post may
/// belong to several: none of them hides another.
pub fn route(submission: &RedditSubmission, profiles: &Vec<Competition>) -> (plan: Vec<Target>)
    ensures
        is_route(submission@, profile_views(profiles@), plan@),
{
    let lower_title = submission.title.as_str().to_lowercase();
    let ghost post = submission@;
    let ghost views = profile_views(profiles@);
    let mut plan: Vec<Target> = Vec::new();
    let mut i: usize = 0;
    while i < profiles.len()
        invariant
            i <= profiles.len(),
            post == submission@,
            views == profile_views(profiles@),
            lower_title@ == lowercase_of(post.title),
            forall|k: int|
                0 <= k < plan.len() ==> {
                    &&& (#[trigger] plan@[k]).profile < i
                    &&& plan@[k].competition == views[plan@[k].profile as int].name
                    &&& qualifies(post, views[plan@[k].profile as int])
                },
            forall|a: int, b: int|
                0 <= a < b < plan.len() ==> (#[trigger] plan@[a]).profile < (
                #[trigger] plan@[b]).profile,
            forall|j: int|
                0 <= j < i && qualifies(post, #[trigger] views[j]) ==> routes_to(plan@, j),
        decreases profiles.len() - i,
    {
        if evaluate_lowered(lower_title.as_str(), submission, &profiles[i]).is_ok() {
            let ghost before = plan@;
            plan.push(Target { profile: i, competition: profiles[i].name });
            assert forall|j: int| 0 <= j < i + 1 && qualifies(
                post,
                #[trigger] views[j],
            ) implies routes_to(plan@, j) by {
                if j < i {
                    let k = choose|k: int|
                        0 <= k < before.len() && (#[trigger] before[k]).profile == j;
                    assert(plan@[k] == before[k]);
                } else {
                    assert(plan@[plan.len() - 1].profile == j);
                }
            }
        }
        i += 1;
    }
    plan
}

/// Every competition that a post is a highlight of is among the targets of
/// its route, also where an earlier competition matches too.
pub proof fn every_match_is_routed(post: Post, profiles: Seq<Profile>, plan: Seq<Target>, i: int)
    requires
        is_route(post, profiles, plan),
        0 <= i < profiles.len(),
        qualifies(post, profiles[i]),
    ensures
        exists|k: int|
            0 <= k < plan.len() && (#[trigger] plan[k]).profile == i && plan[k].competition
                == profiles[i].name,
{
    let k = choose|k: int| 0 <= k < plan.len() && (#[trigger] plan[k]).profile == i;
}

/// Where the relay of a post stands.
#[derive(Clone, Copy, Debug, PartialEq, Eq, Structural)]
pub enum DispatchPhase {
    /// Nothing was done yet.
    Ready,
    /// The delivery to the current target was asked for.
    Delivering,
    /// The delivery was made and the channel is settling.
    Settling,
    /// The lookup of the reply message was asked for.
    LookingUp,
    /// Every target was dealt with.
    Finished,
}

/// What happened outside since the last step.
#[derive(Clone, Copy, Debug, PartialEq, Eq, Structural)]
pub enum DispatchEvent {
    /// The relay is to start.
    Begin,
    /// The delivery was made.
    Delivered,
    /// The delivery failed.
    DeliveryFailed,
    /// The time to settle is over.
    Settled,
    /// The lookup ended, with a message or without, at the time `at` in
    /// milliseconds since the Unix epoch.
    ReplyFound { reply_id: Option<i32>, at: i64 },
}

/// What the relay asks for.
#[derive(Clone, Copy, Debug, PartialEq, Eq, Structural)]
pub enum DispatchAction {
    /// Send title and link to the channel of this competition.
    Deliver { profile: usize },
    /// Wait for this many seconds.
    Settle { seconds: u64 },
    /// Look up the latest message in the reply channel of this competition.
    LookUpReply { profile: usize },
    /// Nothing is left to do.
    Done,
}

/// The relay of a post as the contracts see it.
pub struct DispatchModel {
    pub submission_id: Seq<char>,
    pub targets: Seq<Target>,
    /// The place of the current target; the number of targets when finished.
    pub position: nat,
    pub phase: DispatchPhase,
}

/// Whether a target is being dealt with.
pub open spec fn in_progress(phase: DispatchPhase) -> bool {
    phase == DispatchPhase::Delivering || phase == DispatchPhase::Settling || phase
        == DispatchPhase::LookingUp
}

/// Whether there is a current target while one is being dealt with.
pub open spec fn well_formed(m: DispatchModel) -> bool {
    in_progress(m.phase) ==> m.position < m.targets.len()
}

/// The relay turned to the target at `position`, or finished where there is
/// none.
pub open spec fn turn_to(m: DispatchModel, position: nat) -> (DispatchModel, DispatchAction) {
    if position < m.targets.len() {
        (
            DispatchModel { phase: DispatchPhase::Delivering, position, ..m },
            DispatchAction::Deliver { profile: m.targets[position as int].profile },
        )
    } else {
        (
            DispatchModel { phase: DispatchPhase::Finished, position: m.targets.len(), ..m },
            DispatchAction::Done,
        )
    }
}

/// What an event makes of the relay and what the relay asks for in return;
/// `None` where the event has no place. A failed delivery ends the work on
/// its target: no wait, no lookup and no record follow.
pub open spec fn respond(m: DispatchModel, event: DispatchEvent) -> Option<
    (DispatchModel, DispatchAction),
> {
    match (m.phase, event) {
        (DispatchPhase::Ready, DispatchEvent::Begin) => Some(turn_to(m, 0)),
        (DispatchPhase::Delivering, DispatchEvent::Delivered) => Some(
            (
                DispatchModel { phase: DispatchPhase::Settling, ..m },
                DispatchAction::Settle { seconds: SETTLE_SECS },
            ),
        ),
        (DispatchPhase::Delivering, DispatchEvent::DeliveryFailed) => Some(
            turn_to(m, m.position + 1),
        ),
        (DispatchPhase::Settling, DispatchEvent::Settled) => Some(
            (
                DispatchModel { phase: DispatchPhase::LookingUp, ..m },
                DispatchAction::LookUpReply { profile: m.targets[m.position as int].profile },
            ),
        ),
        (DispatchPhase::LookingUp, DispatchEvent::ReplyFound { .. }) => Some(
            turn_to(m, m.position + 1),
        ),
        _ => None,
    }
}

/// The records after an event: a lookup that ends puts the relay on record,
/// behind all others, unless the post is on record for that competition;
/// nothing else touches the records.
pub open spec fn records_after(m: DispatchModel, records: Seq<Record>, event: DispatchEvent) -> Seq<
    Record,
> {
    match (m.phase, event) {
        (DispatchPhase::LookingUp, DispatchEvent::ReplyFound { reply_id, at }) => {
            let competition = m.targets[m.position as int].competition;
            if recorded(records, m.submission_id, competition) {
                records
            } else {
                records.push(fresh_record(m.submission_id, competition, reply_id, at))
            }
        },
        _ => records,
    }
}

/// The relay of one post to its targets, one after the other.
pub struct Dispatch {
    submission_id: String,
    targets: Vec<Target>,
    position: usize,
    phase: DispatchPhase,
}

impl View for Dispatch {
    type V = DispatchModel;

    closed spec fn view(&self) -> DispatchModel {
        DispatchModel {
            submission_id: self.submission_id@,
            targets: self.targets@,
            position: self.position as nat,
            phase: self.phase,
        }
    }
}

impl Dispatch {
    #[verifier::type_invariant]
    spec fn valid(&self) -> bool {
        well_formed(self@)
    }

    /// A relay of the post to the given targets that has not begun.
    pub fn new(submission_id: String, targets: Vec<Target>) -> (dispatch: Dispatch)
        ensures
            dispatch@ == (DispatchModel {
                submission_id: submission_id@,
                targets: targets@,
                position: 0,
                phase: DispatchPhase::Ready,
            }),
    {
        Dispatch { submission_id, targets, position: 0, phase: DispatchPhase::Ready }
    }

    /// A relay of the post to every competition that it is a highlight of.
    pub fn for_post(submission: &RedditSubmission, profiles: &Vec<Competition>) -> (dispatch:
        Dispatch)
        ensures
            dispatch@.submission_id == submission@.id,
            dispatch@.position == 0,
            dispatch@.phase == DispatchPhase::Ready,
            is_route(submission@, profile_views(profiles@), dispatch@.targets),
    {
        Dispatch::new(submission.id.clone(), route(submission, profiles))
    }

    /// Where the relay stands.
    pub fn phase(&self) -> (phase: DispatchPhase)
        ensures
            phase == self@.phase,
            well_formed(self@),
    {
        proof {
            use_type_invariant(self);
        }
        self.phase
    }

    /// The target that is being dealt with, if any.
    pub fn current(&self) -> (target: Option<Target>)
        ensures
            target == (if in_progress(self@.phase) {
                Some(self@.targets[self@.position as int])
            } else {
                None
            }),
    {
        proof {
            use_type_invariant(self);
        }
        match self.phase {
            DispatchPhase::Ready | DispatchPhase::Finished => None,
            _ => Some(self.targets[self.position]),
        }
    }

    /// Turns to the target at `position`, or finishes where there is none.
    fn turn(&mut self, position: usize) -> (action: DispatchAction)
        requires
            position <= old(self)@.targets.len(),
        ensures
            (final(self)@, action) == turn_to(old(self)@, position as nat),
    {
        if position < self.targets.len() {
            self.position = position;
            self.phase = DispatchPhase::Delivering;
            DispatchAction::Deliver { profile: self.targets[position].profile }
        } else {
            self.phase = DispatchPhase::Finished;
            self.position = self.targets.len();
            DispatchAction::Done
        }
    }

    /// Takes an event and says what is to be done next. The delivery to a
    /// target is asked for first, the wait after it has been made, the lookup
    /// after the wait is over; when the lookup has ended the relay is put on
    /// record. An event that has no place changes nothing.
    pub fn step(&mut self, store: &mut ReplayStore, event: DispatchEvent) -> (outcome: Result<
        DispatchAction,
        OutOfTurn,
    >)
        ensures
            match respond(old(self)@, event) {
                Some((model, action)) => final(self)@ == model && outcome == Ok::<
                    DispatchAction,
                    OutOfTurn,
                >(action),
                None => final(self)@ == old(self)@ && outcome is Err,
            },
            final(store)@ == records_after(old(self)@, old(store)@, event),
            grows_to(old(store)@, final(store)@),
    {
        proof {
            use_type_invariant(&*self);
        }
        assert(in_progress(self.phase) ==> self.position < self.targets.len());
        match (self.phase, event) {
            (DispatchPhase::Ready, DispatchEvent::Begin) => Ok(self.turn(0)),
            (DispatchPhase::Delivering, DispatchEvent::Delivered) => {
                self.phase = DispatchPhase::Settling;
                Ok(DispatchAction::Settle { seconds: SETTLE_SECS })
            },
            (DispatchPhase::Delivering, DispatchEvent::DeliveryFailed) => {
                let next = self.position + 1;
                Ok(self.turn(next))
            },
            (DispatchPhase::Settling, DispatchEvent::Settled) => {
                self.phase = DispatchPhase::LookingUp;
                Ok(DispatchAction::LookUpReply { profile: self.targets[self.position].profile })
            },
            (DispatchPhase::LookingUp, DispatchEvent::ReplyFound { reply_id, at }) => {
                let record = GoalSubmission::new(
                    self.submission_id.clone(),
                    self.targets[self.position].competition,
                    reply_id,
                    at,
                );
                store.append(record);
                let next = self.position + 1;
                Ok(self.turn(next))
            },
            _ => Err(OutOfTurn),
        }
    }
}

} // verus!
