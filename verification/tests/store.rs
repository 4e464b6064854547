//! Request/response behaviour of the manager: creation, queries, voting.

use pollstore::{Manager, Uuid};

fn opts(labels: &[&str]) -> Vec<String> {
    labels.iter().map(|s| s.to_string()).collect()
}

/// One counter per option from the moment of creation.
#[test]
fn new_poll_has_zeroed_counter_per_option() {
    let mut m = Manager::default();
    let (id, _) = m.create_poll(
        "Favourite color".to_string(),
        "pick one".to_string(),
        false,
        opts(&["red", "green", "blue"]),
    );
    let (_sub, snapshot) = m.register_poll_subscription(id).unwrap();
    assert_eq!(snapshot, vec![0, 0, 0]);
}

/// The vote vector keeps one counter per option at every observation point.
#[test]
fn counters_match_options_after_votes() {
    let mut m = Manager::default();
    let (a, _) = m.create_poll("A".to_string(), "".to_string(), false, opts(&["x", "y"]));
    let (b, _) = m.create_poll("B".to_string(), "".to_string(), true, opts(&["1", "2", "3"]));
    assert!(m.vote(a, 1).0);
    assert!(m.vote(b, 2).0);
    let (_, snap_a) = m.register_poll_subscription(a).unwrap();
    let (_, snap_b) = m.register_poll_subscription(b).unwrap();
    assert_eq!(snap_a.len(), 2);
    assert_eq!(snap_b.len(), 3);
}

/// Voting with an unknown id fails and changes nothing.
#[test]
fn vote_unknown_id_fails_and_changes_nothing() {
    let mut m = Manager::default();
    let (id, _) = m.create_poll("p".to_string(), "".to_string(), false, opts(&["a", "b"]));
    assert!(m.vote(id, 0).0);

    let unknown = Uuid(if id.0 == 0 { 1 } else { 0 });
    let (ok, pushes) = m.vote(unknown, 0);
    assert!(!ok);
    assert!(pushes.is_empty());

    let (_, snapshot) = m.register_poll_subscription(id).unwrap();
    assert_eq!(snapshot, vec![1, 0]);
}

/// Voting with an option index at or past the end fails and changes
/// nothing; the caller cannot tell this failure from an unknown id.
#[test]
fn vote_index_out_of_range_fails_and_changes_nothing() {
    let mut m = Manager::default();
    let (id, _) = m.create_poll("p".to_string(), "".to_string(), false, opts(&["a", "b"]));
    let (ok, pushes) = m.vote(id, 2);
    assert!(!ok);
    assert!(pushes.is_empty());
    let (ok, _) = m.vote(id, usize::MAX);
    assert!(!ok);
    let (_, snapshot) = m.register_poll_subscription(id).unwrap();
    assert_eq!(snapshot, vec![0, 0]);
}

/// Sequential successful votes accumulate exactly: five votes, counter
/// five, nothing lost and nothing double-counted.
#[test]
fn votes_accumulate_exactly() {
    let mut m = Manager::default();
    let (id, _) = m.create_poll("p".to_string(), "".to_string(), false, opts(&["only"]));
    for _ in 0..5 {
        assert!(m.vote(id, 0).0);
    }
    let (_, snapshot) = m.register_poll_subscription(id).unwrap();
    assert_eq!(snapshot, vec![5]);
}

/// A summary carries the poll's name, description and options — and no
/// vote counts.
#[test]
fn summary_carries_fields_without_counts() {
    let mut m = Manager::default();
    let (id, _) = m.create_poll(
        "Best food".to_string(),
        "lunch debate".to_string(),
        false,
        opts(&["soup", "salad"]),
    );
    let s = m.get_summary(id).unwrap();
    assert_eq!(s.id, id);
    assert_eq!(s.name, "Best food");
    assert_eq!(s.description, "lunch debate");
    assert_eq!(s.options, opts(&["soup", "salad"]));
}

/// An unknown id has no summary.
#[test]
fn get_summary_unknown_id_is_absent() {
    let m = Manager::default();
    assert!(m.get_summary(Uuid(42)).is_none());
}

/// Polls created private never appear in the summaries list; public polls
/// appear in creation order.
#[test]
fn summaries_skip_private_polls() {
    let mut m = Manager::default();
    let (pub1, _) = m.create_poll("one".to_string(), "".to_string(), false, opts(&["a"]));
    let (prv, _) = m.create_poll("two".to_string(), "".to_string(), true, opts(&["b"]));
    let (pub2, _) = m.create_poll("three".to_string(), "".to_string(), false, opts(&["c"]));
    let summaries = m.get_summaries();
    let ids: Vec<Uuid> = summaries.iter().map(|s| s.id).collect();
    assert_eq!(ids, vec![pub1, pub2]);
    assert!(!ids.contains(&prv));
    // The private poll still answers a direct query.
    assert!(m.get_summary(prv).is_some());
}

/// Every creation allocates a distinct id.
#[test]
fn created_ids_are_distinct() {
    let mut m = Manager::default();
    let (a, _) = m.create_poll("a".to_string(), "".to_string(), false, opts(&[]));
    let (b, _) = m.create_poll("b".to_string(), "".to_string(), false, opts(&[]));
    let (c, _) = m.create_poll("c".to_string(), "".to_string(), false, opts(&[]));
    assert_ne!(a, b);
    assert_ne!(a, c);
    assert_ne!(b, c);
}

/// The end-to-end scenario: create a two-option poll, vote twice on the
/// first option, fail once out of range, and observe the summary and the
/// vote vector.
#[test]
fn end_to_end_scenario() {
    let mut m = Manager::default();
    let (id, _) = m.create_poll(
        "poll".to_string(),
        "".to_string(),
        false,
        opts(&["A", "B"]),
    );
    assert!(m.vote(id, 0).0);
    assert!(m.vote(id, 0).0);
    assert!(!m.vote(id, 5).0);
    let s = m.get_summary(id).unwrap();
    assert_eq!(s.options, opts(&["A", "B"]));
    // The counts are observable only through a poll-vote subscription.
    let (_, snapshot) = m.register_poll_subscription(id).unwrap();
    assert_eq!(snapshot, vec![2, 0]);
}
