use echo_service::join::{JoinCredentials, JoinResult, NetworkJoinManager};

fn credentials() -> JoinCredentials {
    JoinCredentials {
        network_id: String::from("appliance-net"),
        passphrase: String::from("not-a-real-passphrase"),
    }
}

#[test]
fn fails_three_times_then_succeeds_on_fourth() {
    let mut mgr = NetworkJoinManager::new(credentials());
    let outcomes = vec![
        JoinResult::Failed(1),
        JoinResult::Failed(2),
        JoinResult::Failed(3),
        JoinResult::Joined,
    ];
    let joined = mgr.join_until(&outcomes);
    assert!(joined);
    assert!(mgr.joined);
    assert_eq!(mgr.attempts, 4);
    assert!(!mgr.should_retry());
}

#[test]
fn no_attempt_after_the_first_success() {
    let mut mgr = NetworkJoinManager::new(credentials());
    let outcomes = vec![
        JoinResult::Failed(7),
        JoinResult::Joined,
        JoinResult::Joined,
        JoinResult::Failed(9),
    ];
    assert!(mgr.join_until(&outcomes));
    // exactly the failed attempt and the first success were consumed
    assert_eq!(mgr.attempts, 2);
}

#[test]
fn immediate_success_takes_one_attempt() {
    let mut mgr = NetworkJoinManager::new(credentials());
    assert!(mgr.join_until(&vec![JoinResult::Joined]));
    assert_eq!(mgr.attempts, 1);
}

#[test]
fn all_failures_consume_every_attempt_and_keep_retrying() {
    let mut mgr = NetworkJoinManager::new(credentials());
    let outcomes = vec![JoinResult::Failed(5); 5];
    assert!(!mgr.join_until(&outcomes));
    assert!(!mgr.joined);
    assert_eq!(mgr.attempts, 5);
    assert!(mgr.should_retry());
}

#[test]
fn failure_reason_is_discarded_silently() {
    let mut mgr = NetworkJoinManager::new(credentials());
    mgr.on_attempt(JoinResult::Failed(0xdead));
    assert!(!mgr.joined);
    assert_eq!(mgr.attempts, 1);
    mgr.on_attempt(JoinResult::Joined);
    assert!(mgr.joined);
    assert_eq!(mgr.attempts, 2);
}
