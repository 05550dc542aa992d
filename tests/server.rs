use messages_actix::server::{IndexResponse, MessageApp, ServerState, HOST, WORKERS};

fn messages() -> Vec<String> {
    vec!["hello".to_string(), "world".to_string()]
}

#[test]
fn message_app_keeps_its_port() {
    assert_eq!(MessageApp::new(8080).port(), 8080);
    assert_eq!(MessageApp::new(0).port(), 0);
    assert_eq!(HOST, "127.0.0.1");
    assert_eq!(WORKERS, 8);
}

#[test]
fn fresh_state_has_counted_nothing() {
    let state = ServerState::new(3, messages());
    assert_eq!(state.request_count(), 0);
}

#[test]
fn sequential_requests_count_one_by_one() {
    let mut state = ServerState::new(5, messages());
    let responses: Vec<IndexResponse> = (0..4).map(|_| state.handle()).collect();
    let counts: Vec<usize> = responses.iter().map(|r| r.request_count).collect();
    assert_eq!(counts, vec![1, 2, 3, 4]);
    assert_eq!(state.request_count(), 4);
}

#[test]
fn server_id_is_the_same_in_every_response() {
    let mut state = ServerState::new(17, messages());
    for _ in 0..5 {
        assert_eq!(state.handle().server_id, 17);
    }
}

#[test]
fn messages_are_copied_whole_into_every_response() {
    let mut state = ServerState::new(1, messages());
    for _ in 0..3 {
        assert_eq!(state.handle().messages, messages());
    }
    let mut empty = ServerState::new(1, Vec::new());
    assert!(empty.handle().messages.is_empty());
}

#[test]
fn restart_counts_from_one_again() {
    let mut state = ServerState::new(2, messages());
    state.handle();
    state.handle();
    let mut restarted = ServerState::new(2, messages());
    assert_eq!(restarted.handle().request_count, 1);
}
