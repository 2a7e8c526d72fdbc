use chitchat::chat_client::{ApiResponse, FetchOutcome, ServerInfo, Status};
use chitchat::dispatcher::ActionDispatcher;

fn body(message: &str) -> FetchOutcome {
    FetchOutcome::Body(ApiResponse { status: String::from("ok"), message: String::from(message) })
}

#[test]
fn new_dispatcher_knows_the_server_as_offline() {
    let d = ActionDispatcher::new();
    assert_eq!(d.server_info(), ServerInfo::default());
    assert!(!d.is_pending(0));
}

#[test]
fn tickets_count_up_and_are_pending() {
    let mut d = ActionDispatcher::new();
    assert_eq!(d.dispatch(), Some(0));
    assert_eq!(d.dispatch(), Some(1));
    assert_eq!(d.dispatch(), Some(2));
    assert!(d.is_pending(0) && d.is_pending(1) && d.is_pending(2));
    assert!(!d.is_pending(3));
    assert_eq!(d.server_info(), ServerInfo::default());
}

#[test]
fn completion_is_applied_once() {
    let mut d = ActionDispatcher::new();
    let t = d.dispatch().unwrap();
    assert!(d.complete(t, &body("online, currently has 9 players")));
    assert_eq!(d.server_info(), ServerInfo { player_count: 9, status: Status::Online });
    assert!(!d.is_pending(t));
    assert!(!d.complete(t, &FetchOutcome::TransportFailure));
    assert_eq!(d.server_info(), ServerInfo { player_count: 9, status: Status::Online });
}

#[test]
fn completion_of_an_unknown_ticket_changes_nothing() {
    let mut d = ActionDispatcher::new();
    assert!(!d.complete(0, &FetchOutcome::TransportFailure));
    assert!(!d.complete(77, &body("online, currently has 9 players")));
    assert_eq!(d.server_info(), ServerInfo::default());
    assert_eq!(d.dispatch(), Some(0));
}

#[test]
fn failed_fetch_replaces_a_good_status_whole() {
    let mut d = ActionDispatcher::new();
    let first = d.dispatch().unwrap();
    let second = d.dispatch().unwrap();
    assert!(d.complete(first, &body("online, currently has 9 players")));
    assert!(d.complete(second, &FetchOutcome::TransportFailure));
    assert_eq!(d.server_info(), ServerInfo { player_count: 0, status: Status::Error });
}

#[test]
fn the_last_completion_wins_whatever_the_order() {
    let mut d = ActionDispatcher::new();
    let first = d.dispatch().unwrap();
    let second = d.dispatch().unwrap();
    let third = d.dispatch().unwrap();
    assert!(d.complete(third, &body("currently has 3 players")));
    assert!(d.complete(first, &body("online currently has 1 players")));
    assert_eq!(d.server_info(), ServerInfo { player_count: 1, status: Status::Online });
    assert!(d.is_pending(second));
    assert!(d.complete(second, &FetchOutcome::Malformed));
    assert_eq!(d.server_info(), ServerInfo::error());
    assert!(!d.is_pending(first) && !d.is_pending(second) && !d.is_pending(third));
}

#[test]
fn tickets_are_not_handed_out_again() {
    let mut d = ActionDispatcher::new();
    let a = d.dispatch().unwrap();
    assert!(d.complete(a, &FetchOutcome::Refused));
    let b = d.dispatch().unwrap();
    assert_ne!(a, b);
    assert!(!d.complete(a, &FetchOutcome::Refused));
    assert!(d.is_pending(b));
}
