use pong_serv::protocol::{
    dispatch_requested_game_mode, grace_period_event, mode_0_start_messages, RejectReason, Route,
};
use pong_serv::{HelloMessage, OnAcceptGenerator, Side, WsEvent};

#[test]
fn hello_happy_path_local() {
    let hello = HelloMessage::new(3, String::from("alice"), 1);
    assert_eq!(dispatch_requested_game_mode(hello, true), Route::Local);
}

#[test]
fn unknown_user_is_rejected() {
    let hello = HelloMessage::new(3, String::from("ghost"), 0);
    assert_eq!(
        dispatch_requested_game_mode(hello, false),
        Route::Reject(RejectReason::UnknownUser)
    );
}

#[test]
fn remote_version_and_mode_routing() {
    let hello = HelloMessage::new(3, String::from("a"), 0);
    assert_eq!(dispatch_requested_game_mode(hello, true), Route::Remote(String::from("a")));
    let hello = HelloMessage::new(2, String::from("a"), 0);
    assert_eq!(
        dispatch_requested_game_mode(hello, true),
        Route::Reject(RejectReason::UnsupportedVersion)
    );
    let hello = HelloMessage::new(3, String::from("a"), 7);
    assert_eq!(
        dispatch_requested_game_mode(hello, true),
        Route::Reject(RejectReason::UnsupportedMode)
    );
}

#[test]
fn match_pairing_start_messages() {
    let (to_a, to_b) = mode_0_start_messages("a", "b", 1234);
    assert_eq!((to_a.enemy_username.as_str(), to_a.side, to_a.starting_time), ("b", 0, 1234));
    assert_eq!((to_b.enemy_username.as_str(), to_b.side, to_b.starting_time), ("a", 1, 1234));
}

#[test]
fn grace_period_failures_return_survivor() {
    assert_eq!(grace_period_event(Side::Left, &WsEvent::Closed), Some(Side::Right));
    assert_eq!(grace_period_event(Side::Right, &WsEvent::TransportError), Some(Side::Left));
    assert_eq!(grace_period_event(Side::Left, &WsEvent::Binary(vec![1])), None);
    assert_eq!(grace_period_event(Side::Right, &WsEvent::Ping), None);
}

#[test]
fn third_consecutive_accept_failure_is_fatal() {
    let mut acceptor = OnAcceptGenerator::new(());
    assert_eq!(acceptor.handle_tcp_accept_error(), Ok(()));
    assert_eq!(acceptor.handle_tcp_accept_error(), Ok(()));
    acceptor.record_accept_success();
    assert_eq!(acceptor.consecutive_accept_fail_count, 0);
    assert_eq!(acceptor.handle_tcp_accept_error(), Ok(()));
    assert_eq!(acceptor.handle_tcp_accept_error(), Ok(()));
    assert_eq!(acceptor.handle_tcp_accept_error(), Err(()));
    assert_eq!(acceptor.consecutive_accept_fail_count, 3);
}
