use goal_relay::competition::{Competition, CompetitionName};
use goal_relay::dispatch::{
    route, Dispatch, DispatchAction, DispatchEvent, DispatchPhase, Target, SETTLE_SECS,
};
use goal_relay::store::{GoalSubmission, ReplayStore};
use goal_relay::submission::RedditSubmission;
use goal_relay::supervisor::OutOfTurn;

fn profiles() -> Vec<Competition> {
    vec![
        Competition::new(
            CompetitionName::ChampionsLeague,
            vec!["arsenal".to_string(), "bayern".to_string(), "chelsea".to_string()],
            10,
            11,
        ),
        Competition::new(
            CompetitionName::Bundesliga,
            vec!["bayern".to_string(), "dortmund".to_string()],
            20,
            21,
        ),
        Competition::new(
            CompetitionName::Internationals,
            vec!["england".to_string(), "germany".to_string()],
            30,
            31,
        ),
        Competition::new(
            CompetitionName::PremierLeague,
            vec!["arsenal".to_string(), "chelsea".to_string()],
            40,
            41,
        ),
    ]
}

fn post(title: &str) -> RedditSubmission {
    RedditSubmission::new(
        "1abcde".to_string(),
        title.to_string(),
        Some("https://streamff.com/v/1".to_string()),
        1_700_000_000,
    )
}

fn record(id: &str, competition: CompetitionName) -> GoalSubmission {
    GoalSubmission::new(id.to_string(), competition, Some(7), 1_000)
}

fn found(reply_id: Option<i32>, at: i64) -> DispatchEvent {
    DispatchEvent::ReplyFound { reply_id, at }
}

#[test]
fn post_is_routed_to_every_matching_competition() {
    let plan = route(&post("Arsenal [2] - [1] Chelsea"), &profiles());
    assert_eq!(
        plan,
        vec![
            Target { profile: 0, competition: CompetitionName::ChampionsLeague },
            Target { profile: 3, competition: CompetitionName::PremierLeague },
        ]
    );
    let plan = route(&post("Bayern 3 - 0 Dortmund"), &profiles());
    assert_eq!(plan, vec![Target { profile: 1, competition: CompetitionName::Bundesliga }]);
    assert_eq!(route(&post("Ajax 3 - 0 PSV"), &profiles()), vec![]);
    assert_eq!(route(&post("Arsenal W 3 - 0 Chelsea W"), &profiles()), vec![]);
    assert_eq!(route(&post("Arsenal [2] - [1] Chelsea"), &Vec::new()), vec![]);
}

#[test]
fn relay_delivers_waits_looks_up_and_records() {
    let mut store = ReplayStore::new();
    let mut relay = Dispatch::for_post(&post("Arsenal [2] - [1] Chelsea"), &profiles());
    assert_eq!(relay.phase(), DispatchPhase::Ready);
    assert_eq!(relay.current(), None);

    assert_eq!(relay.step(&mut store, DispatchEvent::Begin), Ok(DispatchAction::Deliver { profile: 0 }));
    assert_eq!(relay.phase(), DispatchPhase::Delivering);
    assert_eq!(
        relay.current(),
        Some(Target { profile: 0, competition: CompetitionName::ChampionsLeague })
    );
    assert_eq!(
        relay.step(&mut store, DispatchEvent::Delivered),
        Ok(DispatchAction::Settle { seconds: 20 })
    );
    assert_eq!(relay.phase(), DispatchPhase::Settling);
    assert_eq!(
        relay.step(&mut store, DispatchEvent::Settled),
        Ok(DispatchAction::LookUpReply { profile: 0 })
    );
    assert_eq!(relay.phase(), DispatchPhase::LookingUp);
    assert_eq!(store.len(), 0);
    assert_eq!(
        relay.step(&mut store, found(Some(77), 5_000)),
        Ok(DispatchAction::Deliver { profile: 3 })
    );
    assert_eq!(store.len(), 1);
    assert_eq!(
        store.get(0),
        Some(&GoalSubmission {
            submission_id: "1abcde".to_string(),
            competition: CompetitionName::ChampionsLeague,
            sent_comment_ids: Vec::new(),
            reply_id: Some(77),
            added_time: 5_000,
        })
    );

    assert_eq!(
        relay.step(&mut store, DispatchEvent::Delivered),
        Ok(DispatchAction::Settle { seconds: SETTLE_SECS })
    );
    assert_eq!(
        relay.step(&mut store, DispatchEvent::Settled),
        Ok(DispatchAction::LookUpReply { profile: 3 })
    );
    assert_eq!(relay.step(&mut store, found(None, 26_000)), Ok(DispatchAction::Done));
    assert_eq!(relay.phase(), DispatchPhase::Finished);
    assert_eq!(relay.current(), None);
    assert_eq!(store.len(), 2);
    assert_eq!(
        store.get(1),
        Some(&GoalSubmission {
            submission_id: "1abcde".to_string(),
            competition: CompetitionName::PremierLeague,
            sent_comment_ids: Vec::new(),
            reply_id: None,
            added_time: 26_000,
        })
    );
    assert_eq!(store.get(2), None);
}

#[test]
fn lookup_is_never_asked_for_before_the_wait_is_over() {
    let mut store = ReplayStore::new();
    let mut relay = Dispatch::for_post(&post("Arsenal [2] - [1] Chelsea"), &profiles());
    assert_eq!(relay.step(&mut store, DispatchEvent::Settled), Err(OutOfTurn));
    assert_eq!(relay.step(&mut store, found(Some(1), 1)), Err(OutOfTurn));
    relay.step(&mut store, DispatchEvent::Begin).unwrap();
    assert_eq!(relay.step(&mut store, DispatchEvent::Settled), Err(OutOfTurn));
    assert_eq!(relay.step(&mut store, found(Some(1), 1)), Err(OutOfTurn));
    assert_eq!(relay.step(&mut store, DispatchEvent::Begin), Err(OutOfTurn));
    assert_eq!(relay.phase(), DispatchPhase::Delivering);
    relay.step(&mut store, DispatchEvent::Delivered).unwrap();
    assert_eq!(relay.step(&mut store, found(Some(1), 1)), Err(OutOfTurn));
    assert_eq!(relay.step(&mut store, DispatchEvent::Delivered), Err(OutOfTurn));
    assert_eq!(relay.step(&mut store, DispatchEvent::DeliveryFailed), Err(OutOfTurn));
    assert_eq!(relay.phase(), DispatchPhase::Settling);
    assert_eq!(
        relay.step(&mut store, DispatchEvent::Settled),
        Ok(DispatchAction::LookUpReply { profile: 0 })
    );
    assert_eq!(relay.step(&mut store, DispatchEvent::Settled), Err(OutOfTurn));
    assert_eq!(store.len(), 0);
}

#[test]
fn failed_delivery_leaves_no_record() {
    let mut store = ReplayStore::new();
    let mut relay = Dispatch::for_post(&post("Arsenal [2] - [1] Chelsea"), &profiles());
    relay.step(&mut store, DispatchEvent::Begin).unwrap();
    assert_eq!(
        relay.step(&mut store, DispatchEvent::DeliveryFailed),
        Ok(DispatchAction::Deliver { profile: 3 })
    );
    assert_eq!(store.len(), 0);
    assert_eq!(relay.step(&mut store, DispatchEvent::DeliveryFailed), Ok(DispatchAction::Done));
    assert_eq!(relay.phase(), DispatchPhase::Finished);
    assert_eq!(store.len(), 0);
    assert_eq!(relay.step(&mut store, DispatchEvent::Begin), Err(OutOfTurn));
}

#[test]
fn relay_without_targets_is_done_at_once() {
    let mut store = ReplayStore::new();
    let mut relay = Dispatch::for_post(&post("Ajax 1 - 0 PSV"), &profiles());
    assert_eq!(relay.step(&mut store, DispatchEvent::Begin), Ok(DispatchAction::Done));
    assert_eq!(relay.phase(), DispatchPhase::Finished);
    let mut relay = Dispatch::new("1zzzzz".to_string(), Vec::new());
    assert_eq!(relay.step(&mut store, DispatchEvent::Begin), Ok(DispatchAction::Done));
}

#[test]
fn store_only_grows() {
    let mut store = ReplayStore::new();
    assert_eq!(store.len(), 0);
    let mut last = 0;
    let ids = ["a", "b", "a", "c", "b", "d"];
    for id in ids {
        store.append(record(id, CompetitionName::Bundesliga));
        assert!(store.len() >= last);
        last = store.len();
        store.record_comment(id, "c1");
        assert_eq!(store.len(), last);
    }
    assert_eq!(store.len(), 4);
    let order: Vec<String> =
        (0..store.len()).map(|i| store.get(i).unwrap().submission_id.clone()).collect();
    assert_eq!(order, vec!["a", "b", "c", "d"]);
}

#[test]
fn post_is_recorded_once_for_each_competition() {
    let mut store = ReplayStore::new();
    assert!(!store.is_recorded("a", CompetitionName::Bundesliga));
    assert!(store.append(record("a", CompetitionName::Bundesliga)));
    assert!(store.is_recorded("a", CompetitionName::Bundesliga));
    assert!(!store.is_recorded("a", CompetitionName::PremierLeague));
    assert!(!store.is_recorded("b", CompetitionName::Bundesliga));
    assert!(!store.append(GoalSubmission::new(
        "a".to_string(),
        CompetitionName::Bundesliga,
        None,
        9_999
    )));
    assert_eq!(store.len(), 1);
    assert_eq!(store.get(0).unwrap().reply_id, Some(7));
    assert_eq!(store.get(0).unwrap().added_time, 1_000);
    assert!(store.append(record("a", CompetitionName::PremierLeague)));
    assert!(store.append(record("b", CompetitionName::Bundesliga)));
    assert_eq!(store.len(), 3);
}

#[test]
fn comments_are_noted_on_the_relays_of_their_post() {
    let mut store = ReplayStore::new();
    store.append(record("a", CompetitionName::Bundesliga));
    store.append(record("b", CompetitionName::Bundesliga));
    store.append(record("a", CompetitionName::ChampionsLeague));
    assert!(store.record_comment("a", "c1"));
    assert!(store.record_comment("a", "c2"));
    assert!(store.record_comment("b", "c3"));
    assert!(!store.record_comment("z", "c4"));
    assert_eq!(store.len(), 3);
    assert_eq!(store.get(0).unwrap().sent_comment_ids, vec!["c1", "c2"]);
    assert_eq!(store.get(1).unwrap().sent_comment_ids, vec!["c3"]);
    assert_eq!(store.get(2).unwrap().sent_comment_ids, vec!["c1", "c2"]);
    assert_eq!(store.get(0).unwrap().competition, CompetitionName::Bundesliga);
    assert_eq!(store.get(2).unwrap().competition, CompetitionName::ChampionsLeague);
    assert_eq!(store.get(0).unwrap().reply_id, Some(7));
}

#[test]
fn relay_of_a_recorded_post_adds_no_second_record() {
    let mut store = ReplayStore::new();
    for at in [1_000, 2_000] {
        let mut relay = Dispatch::for_post(&post("Bayern 3 - 0 Dortmund"), &profiles());
        relay.step(&mut store, DispatchEvent::Begin).unwrap();
        relay.step(&mut store, DispatchEvent::Delivered).unwrap();
        relay.step(&mut store, DispatchEvent::Settled).unwrap();
        assert_eq!(relay.step(&mut store, found(Some(5), at)), Ok(DispatchAction::Done));
    }
    assert_eq!(store.len(), 1);
    assert_eq!(store.get(0).unwrap().added_time, 1_000);
}
