//! What holds of every run of a relay, whatever happens outside: the order
//! of delivery, wait and lookup, and that no target is passed over.

use crate::dispatch::{
    respond, well_formed, DispatchAction, DispatchEvent, DispatchModel, DispatchPhase, Target,
    SETTLE_SECS,
};
use crate::store::{grows_to, Record};
use vstd::prelude::*;

verus! {

/// An event that the relay accepted, and what it asked for in return.
pub struct Exchange {
    pub event: DispatchEvent,
    pub action: DispatchAction,
}

/// The relay after a sequence of events, and the exchanges that the accepted
/// ones among them made, in order.
pub open spec fn run(m: DispatchModel, events: Seq<DispatchEvent>) -> (DispatchModel, Seq<Exchange>)
    decreases events.len(),
{
    if events.len() == 0 {
        (m, Seq::empty())
    } else {
        let before = run(m, events.drop_last());
        match respond(before.0, events.last()) {
            Some((next, action)) => (
                next,
                before.1.push(Exchange { event: events.last(), action }),
            ),
            None => before,
        }
    }
}

/// The competitions that deliveries were asked for, in order.
pub open spec fn delivered(log: Seq<Exchange>) -> Seq<usize>
    decreases log.len(),
{
    if log.len() == 0 {
        Seq::empty()
    } else {
        match log.last().action {
            DispatchAction::Deliver { profile } => delivered(log.drop_last()).push(profile),
            _ => delivered(log.drop_last()),
        }
    }
}

/// Whether the exchange at place `k`, if it asks for a lookup, answers the
/// end of the wait, which was asked for when the delivery to the same
/// competition had been made.
pub open spec fn lookup_is_ordered(log: Seq<Exchange>, k: int) -> bool {
    log[k].action matches DispatchAction::LookUpReply { profile } ==> {
        &&& k >= 2
        &&& log[k].event == DispatchEvent::Settled
        &&& log[k - 1].event == DispatchEvent::Delivered
        &&& log[k - 1].action == DispatchAction::Settle { seconds: SETTLE_SECS }
        &&& log[k - 2].action == DispatchAction::Deliver { profile }
    }
}

/// The number of targets that a delivery was asked for.
pub open spec fn delivered_count(m: DispatchModel) -> nat {
    match m.phase {
        DispatchPhase::Ready => 0,
        DispatchPhase::Finished => m.targets.len(),
        _ => m.position + 1,
    }
}

/// The competitions of the first `n` targets.
pub open spec fn first_profiles(targets: Seq<Target>, n: nat) -> Seq<usize> {
    targets.take(n as int).map_values(|t: Target| t.profile)
}

/// What the exchanges so far say about where the relay stands.
pub open spec fn consistent(m: DispatchModel, log: Seq<Exchange>) -> bool {
    &&& well_formed(m)
    &&& forall|k: int| 0 <= k < log.len() ==> lookup_is_ordered(log, k)
    &&& delivered(log) == first_profiles(m.targets, delivered_count(m))
    &&& match m.phase {
        DispatchPhase::Ready => log.len() == 0,
        DispatchPhase::Delivering => log.len() >= 1 && log.last().action
            == (DispatchAction::Deliver { profile: m.targets[m.position as int].profile }),
        DispatchPhase::Settling => log.len() >= 2 && log.last().event == DispatchEvent::Delivered
            && log.last().action == (DispatchAction::Settle { seconds: SETTLE_SECS }) && log[log.len()
            - 2].action == (DispatchAction::Deliver {
            profile: m.targets[m.position as int].profile,
        }),
        _ => true,
    }
}

/// An accepted event keeps the exchanges consistent with the relay, and
/// leaves the targets as they are.
pub proof fn lemma_step_is_consistent(
    m: DispatchModel,
    log: Seq<Exchange>,
    event: DispatchEvent,
    next: DispatchModel,
    action: DispatchAction,
)
    requires
        consistent(m, log),
        respond(m, event) == Some((next, action)),
    ensures
        consistent(next, log.push(Exchange { event, action })),
        next.targets == m.targets,
        next.submission_id == m.submission_id,
{
    let grown = log.push(Exchange { event, action });
    assert(grown.drop_last() =~= log);
    assert forall|k: int| 0 <= k < grown.len() implies lookup_is_ordered(grown, k) by {
        if k < log.len() {
            assert(lookup_is_ordered(log, k));
        }
    }
    let n = delivered_count(m);
    match action {
        DispatchAction::Deliver { profile } => {
            assert(first_profiles(m.targets, n).push(profile) =~= first_profiles(
                m.targets,
                n + 1,
            ));
        },
        _ => {},
    }
}

/// The exchanges of a run are consistent with the relay that it ends in.
pub proof fn lemma_run_is_consistent(m: DispatchModel, events: Seq<DispatchEvent>)
    requires
        m.phase == DispatchPhase::Ready,
    ensures
        consistent(run(m, events).0, run(m, events).1),
        run(m, events).0.targets == m.targets,
        run(m, events).0.submission_id == m.submission_id,
    decreases events.len(),
{
    if events.len() == 0 {
        assert(first_profiles(m.targets, 0) =~= Seq::<usize>::empty());
    } else {
        lemma_run_is_consistent(m, events.drop_last());
        let before = run(m, events.drop_last());
        match respond(before.0, events.last()) {
            Some((next, action)) => {
                lemma_step_is_consistent(before.0, before.1, events.last(), next, action);
            },
            None => {},
        }
    }
}

/// Whatever happens outside, the lookup for a competition is asked for only
/// when the wait is reported to be over, the wait of the fixed length only
/// when the delivery is reported to be made, and that delivery was asked for
/// just before: delivery, wait and lookup follow each other in this order.
pub proof fn delivery_precedes_lookup(m: DispatchModel, events: Seq<DispatchEvent>, k: int)
    requires
        m.phase == DispatchPhase::Ready,
        0 <= k < run(m, events).1.len(),
        run(m, events).1[k].action is LookUpReply,
    ensures
        k >= 2,
        run(m, events).1[k].event == DispatchEvent::Settled,
        run(m, events).1[k - 1].event == DispatchEvent::Delivered,
        run(m, events).1[k - 1].action == (DispatchAction::Settle { seconds: SETTLE_SECS }),
        run(m, events).1[k - 2].action == (DispatchAction::Deliver {
            profile: run(m, events).1[k].action->LookUpReply_profile,
        }),
{
    lemma_run_is_consistent(m, events);
    assert(lookup_is_ordered(run(m, events).1, k));
}

/// A relay that has finished asked for a delivery to each of its targets,
/// once and in their order; one that has not, to the targets up to the
/// current one.
pub proof fn no_target_is_passed_over(m: DispatchModel, events: Seq<DispatchEvent>)
    requires
        m.phase == DispatchPhase::Ready,
    ensures
        delivered(run(m, events).1) == first_profiles(
            m.targets,
            delivered_count(run(m, events).0),
        ),
        run(m, events).0.phase == DispatchPhase::Finished ==> delivered(run(m, events).1)
            == m.targets.map_values(|t: Target| t.profile),
{
    lemma_run_is_consistent(m, events);
}

/// Growth of the records carries over any number of changes: what was on
/// record once stays on record, at its place.
pub proof fn growth_is_transitive(a: Seq<Record>, b: Seq<Record>, c: Seq<Record>)
    requires
        grows_to(a, b),
        grows_to(b, c),
    ensures
        grows_to(a, c),
        a.len() <= c.len(),
{
    assert forall|i: int| 0 <= i < a.len() implies a[i].sent_comment_ids.is_prefix_of(
        (#[trigger] c[i]).sent_comment_ids,
    ) by {
        let x = a[i].sent_comment_ids;
        let y = b[i].sent_comment_ids;
        let z = c[i].sent_comment_ids;
        assert(x =~= z.subrange(0, x.len() as int));
    }
}

} // verus!
