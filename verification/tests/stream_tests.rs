use tastytrade::account_stream::{websocket_url, AccountStreamer};
use tastytrade::accounts::AccountNumber;
use tastytrade::channel::ChannelClosed;
use tastytrade::codec::encode_action;
use tastytrade::heartbeat::{HeartbeatTimer, HEARTBEAT_PERIOD};
use tastytrade::json::JsonValue;
use tastytrade::messages::{AccountEvent, StatusMessage, SubRequestAction};

#[test]
fn endpoints_follow_the_demo_flag() {
    assert_eq!(websocket_url(false), "wss://streamer.tastyworks.com");
    assert_eq!(websocket_url(true), "wss://streamer.cert.tastyworks.com");
}

#[test]
fn send_queues_for_the_writer() {
    let (mut streamer, _event_tx, action_rx) = AccountStreamer::create();
    assert!(streamer.send(SubRequestAction::Heartbeat, None));
    let queued = action_rx.recv().unwrap();
    assert_eq!(queued.action, SubRequestAction::Heartbeat);
    assert!(queued.value.is_none());
}

#[test]
fn send_reports_a_gone_writer() {
    let (mut streamer, _event_tx, action_rx) = AccountStreamer::create();
    drop(action_rx);
    assert!(!streamer.send(SubRequestAction::Heartbeat, None));
}

#[test]
fn subscribe_to_account_carries_the_account_number() {
    let (mut streamer, _event_tx, action_rx) = AccountStreamer::create();
    assert!(streamer.subscribe_to_account(&AccountNumber("5WT0001".to_string())));
    let queued = action_rx.recv().unwrap();
    assert_eq!(queued.action, SubRequestAction::Connect);
    match queued.value {
        Some(JsonValue::Arr(items)) => match &items[0] {
            JsonValue::Str(s) => assert_eq!(s, "5WT0001"),
            other => panic!("expected the account number, got {:?}", other),
        },
        other => panic!("expected an array payload, got {:?}", other),
    }
}

#[test]
fn queued_connect_action_encodes_to_the_wire_frame() {
    let (mut streamer, _event_tx, action_rx) = AccountStreamer::create();
    streamer.subscribe_to_account(&AccountNumber("5WT0001".to_string()));
    let queued = action_rx.recv().unwrap();
    let frame = encode_action("tok", queued);
    assert_eq!(frame, r#"{"auth-token":"tok","action":"connect","value":["5WT0001"]}"#);
}

#[test]
fn get_event_hands_the_reader_output_through_in_order() {
    let (streamer, event_tx, _action_rx) = AccountStreamer::create();
    for i in 0..3u64 {
        event_tx
            .send(AccountEvent::StatusMessage(StatusMessage {
                status: "ok".to_string(),
                action: "connect".to_string(),
                web_socket_session_id: "s".to_string(),
                request_id: i,
            }))
            .unwrap();
    }
    for i in 0..3u64 {
        match streamer.get_event().unwrap() {
            AccountEvent::StatusMessage(m) => assert_eq!(m.request_id, i),
            other => panic!("expected the injected status, got {:?}", other),
        }
    }
}

#[test]
fn a_terminated_reader_shows_as_end_of_stream() {
    let (streamer, event_tx, _action_rx) = AccountStreamer::create();
    drop(event_tx);
    assert_eq!(streamer.get_event().unwrap_err(), ChannelClosed);
}

#[test]
fn heartbeat_period_is_thirty_time_units() {
    assert_eq!(HEARTBEAT_PERIOD, 30);
}

#[test]
fn heartbeat_fires_once_per_window() {
    let mut t = HeartbeatTimer::new(0, HEARTBEAT_PERIOD);
    assert!(!t.tick(10, true));
    assert!(!t.tick(29, true));
    assert!(t.tick(30, true));
    assert!(!t.tick(45, true));
    assert!(!t.tick(59, true));
    assert!(t.tick(60, true));
    assert!(!t.tick(61, true));
}

#[test]
fn late_heartbeat_backs_off_a_full_period() {
    let mut t = HeartbeatTimer::new(0, HEARTBEAT_PERIOD);
    assert!(t.tick(50, true));
    assert!(!t.tick(60, true));
    assert!(!t.tick(79, true));
    assert!(t.tick(80, true));
}

#[test]
fn heartbeat_ceases_after_the_writer_is_gone() {
    let mut t = HeartbeatTimer::new(0, HEARTBEAT_PERIOD);
    assert!(t.tick(30, false));
    assert!(!t.tick(60, true));
    assert!(!t.tick(600, true));
}
