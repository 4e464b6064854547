//! Subscription registration, fan-out pushes, and pruning.

use pollstore::{Manager, Message, Output, Push, SubId, Uuid};

fn opts(labels: &[&str]) -> Vec<String> {
    labels.iter().map(|s| s.to_string()).collect()
}

fn votes_for(pushes: &[Push], sub: SubId) -> Vec<Vec<usize>> {
    pushes
        .iter()
        .filter_map(|p| match p {
            Push::Votes { sub: s, votes } if *s == sub => Some(votes.clone()),
            _ => None,
        })
        .collect()
}

fn totals_for(pushes: &[Push], sub: SubId) -> Vec<Vec<(Uuid, u128)>> {
    pushes
        .iter()
        .filter_map(|p| match p {
            Push::Totals { sub: s, totals } if *s == sub => Some(totals.clone()),
            _ => None,
        })
        .collect()
}

/// A poll subscription registered before two votes observes three values
/// in order: the snapshot, then the vector after each vote.
#[test]
fn poll_subscription_sees_snapshot_then_each_vote() {
    let mut m = Manager::default();
    let (id, _) = m.create_poll("p".to_string(), "".to_string(), false, opts(&["A", "B"]));
    let (sub, snapshot) = m.register_poll_subscription(id).unwrap();

    let mut received = vec![snapshot];
    let (ok, pushes) = m.vote(id, 0);
    assert!(ok);
    received.extend(votes_for(&pushes, sub));
    let (ok, pushes) = m.vote(id, 0);
    assert!(ok);
    received.extend(votes_for(&pushes, sub));

    assert_eq!(received, vec![vec![0, 0], vec![1, 0], vec![2, 0]]);
}

/// The registration snapshot equals the vote vector a query at the same
/// mailbox position observes.
#[test]
fn registration_snapshot_matches_current_state() {
    let mut m = Manager::default();
    let (id, _) = m.create_poll("p".to_string(), "".to_string(), false, opts(&["A", "B"]));
    m.vote(id, 1);
    m.vote(id, 1);
    m.vote(id, 0);
    let (_, snapshot) = m.register_poll_subscription(id).unwrap();
    assert_eq!(snapshot, vec![1, 2]);
}

/// Registering for an unknown poll stores nothing and yields nothing.
#[test]
fn register_unknown_poll_yields_nothing() {
    let mut m = Manager::default();
    let (id, _) = m.create_poll("p".to_string(), "".to_string(), false, opts(&["A"]));
    let unknown = Uuid(if id.0 == 0 { 1 } else { 0 });
    assert!(m.register_poll_subscription(unknown).is_none());
    // No entry was stored: a vote pushes only to the totals side.
    let (ok, pushes) = m.vote(id, 0);
    assert!(ok);
    assert!(pushes.iter().all(|p| matches!(p, Push::Totals { .. })));
}

/// Vote pushes go only to subscribers of the voted poll.
#[test]
fn vote_pushes_are_filtered_by_poll() {
    let mut m = Manager::default();
    let (a, _) = m.create_poll("a".to_string(), "".to_string(), false, opts(&["x"]));
    let (b, _) = m.create_poll("b".to_string(), "".to_string(), false, opts(&["y"]));
    let (sub_a, _) = m.register_poll_subscription(a).unwrap();
    let (sub_b, _) = m.register_poll_subscription(b).unwrap();
    let (ok, pushes) = m.vote(a, 0);
    assert!(ok);
    assert_eq!(votes_for(&pushes, sub_a), vec![vec![1]]);
    assert!(votes_for(&pushes, sub_b).is_empty());
}

/// The totals subscription observes the summed counters of every poll,
/// private ones included, on creation and on every vote.
#[test]
fn totals_follow_creations_and_votes() {
    let mut m = Manager::default();
    let (a, _) = m.create_poll("a".to_string(), "".to_string(), false, opts(&["x", "y"]));
    let (sub, snapshot) = m.register_poll_total_subscription().unwrap();
    assert_eq!(snapshot, vec![(a, 0)]);

    let (_, pushes) = m.vote(a, 1);
    assert_eq!(totals_for(&pushes, sub), vec![vec![(a, 1)]]);

    let (b, pushes) = m.create_poll("b".to_string(), "".to_string(), true, opts(&["z"]));
    assert_eq!(totals_for(&pushes, sub), vec![vec![(a, 1), (b, 0)]]);

    let (_, pushes) = m.vote(b, 0);
    assert_eq!(totals_for(&pushes, sub), vec![vec![(a, 1), (b, 1)]]);
}

/// The overview subscription never observes a private poll, neither in its
/// snapshot nor in any later push.
#[test]
fn overview_never_shows_private_polls() {
    let mut m = Manager::default();
    let (prv, _) = m.create_poll("secret".to_string(), "".to_string(), true, opts(&["a"]));
    let (sub, snapshot) = m.register_overview_subscription().unwrap();
    assert!(snapshot.is_empty());

    // Creations push fresh overview maps; votes on the private poll do not
    // surface it either.
    let (public, pushes) = m.create_poll("open".to_string(), "".to_string(), false, opts(&["b"]));
    let mut seen = vec![snapshot];
    for p in &pushes {
        if let Push::Overview { sub: s, overviews } = p {
            if *s == sub {
                seen.push(overviews.clone());
            }
        }
    }
    assert!(m.vote(prv, 0).0);
    assert_eq!(seen.len(), 2);
    for overviews in &seen[1..] {
        let ids: Vec<Uuid> = overviews.iter().map(|o| o.id).collect();
        assert_eq!(ids, vec![public]);
        assert!(!ids.contains(&prv));
    }
}

/// A dropped subscriber receives no further pushes; the others still do.
#[test]
fn dropped_subscriber_gets_no_more_pushes() {
    let mut m = Manager::default();
    let (id, _) = m.create_poll("p".to_string(), "".to_string(), false, opts(&["x"]));
    let (sub1, _) = m.register_poll_subscription(id).unwrap();
    let (sub2, _) = m.register_poll_subscription(id).unwrap();
    assert_ne!(sub1, sub2);

    m.drop_subscriber(sub1);
    let (ok, pushes) = m.vote(id, 0);
    assert!(ok);
    assert!(votes_for(&pushes, sub1).is_empty());
    assert_eq!(votes_for(&pushes, sub2), vec![vec![1]]);
}

/// Driving the same scenario through the message protocol: each message
/// kind answers with its own output kind.
#[test]
fn process_answers_each_message_kind() {
    let mut m = Manager::default();

    let out = m.process(Message::Create {
        name: "p".to_string(),
        description: "".to_string(),
        private: false,
        options: opts(&["A", "B"]),
    });
    let id = match out {
        Output::Created { id, .. } => id,
        _ => panic!("create must answer with Created"),
    };

    let out = m.process(Message::RegisterPoll { poll: id });
    let (sub, snapshot) = match out {
        Output::PollRegistered { registration } => registration.unwrap(),
        _ => panic!("register must answer with PollRegistered"),
    };
    assert_eq!(snapshot, vec![0, 0]);

    let out = m.process(Message::Vote { poll: id, option: 0 });
    match out {
        Output::Voted { ok, pushes } => {
            assert!(ok);
            assert_eq!(votes_for(&pushes, sub), vec![vec![1, 0]]);
        },
        _ => panic!("vote must answer with Voted"),
    }

    let out = m.process(Message::Vote { poll: id, option: 9 });
    match out {
        Output::Voted { ok, pushes } => {
            assert!(!ok);
            assert!(pushes.is_empty());
        },
        _ => panic!("vote must answer with Voted"),
    }

    let out = m.process(Message::GetSummary { poll: id });
    match out {
        Output::Summary { summary } => assert_eq!(summary.unwrap().options, opts(&["A", "B"])),
        _ => panic!("query must answer with Summary"),
    }

    let out = m.process(Message::GetSummaries);
    match out {
        Output::Summaries { summaries } => assert_eq!(summaries.len(), 1),
        _ => panic!("query must answer with Summaries"),
    }

    let out = m.process(Message::RegisterPollTotal);
    match out {
        Output::TotalsRegistered { registration } => {
            let (_, totals) = registration.unwrap();
            assert_eq!(totals, vec![(id, 1)]);
        },
        _ => panic!("register must answer with TotalsRegistered"),
    }

    let out = m.process(Message::RegisterOverview);
    match out {
        Output::OverviewRegistered { registration } => {
            let (_, overviews) = registration.unwrap();
            assert_eq!(overviews.len(), 1);
            assert_eq!(overviews[0].id, id);
        },
        _ => panic!("register must answer with OverviewRegistered"),
    }
}
