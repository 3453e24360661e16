use tastytrade::feed::{
    deliver_event, DxFeedError, NativeAction, QuoteStreamer, SubState, SubscriptionId,
};
use tastytrade::market::{MarketEvent, QuoteEvent};
use tastytrade::orders::Symbol;

fn open_streamer() -> QuoteStreamer {
    QuoteStreamer::connect("demo.dxfeed.com".to_string(), "tok".to_string(), Ok(99)).unwrap()
}

#[test]
fn connect_fails_on_native_error_code() {
    let r = QuoteStreamer::connect("h".to_string(), "t".to_string(), Err(-1));
    match r {
        Err(DxFeedError::CreateConnectionError) => {},
        Ok(_) => panic!("a failed native call must fail construction"),
    }
}

#[test]
fn dxfeed_error_message_text() {
    assert_eq!(
        DxFeedError::CreateConnectionError.message(),
        "DxFeed error: CreateConnectionError"
    );
}

#[test]
fn subscription_ids_are_unique_and_strictly_increasing() {
    let mut s = open_streamer();
    let a = s.create_sub(1);
    let b = s.create_sub(1);
    let c = s.create_sub(2);
    assert!(a.0 < b.0);
    assert!(b.0 < c.0);
    assert_eq!(a, SubscriptionId(0));
    assert_eq!(b, SubscriptionId(1));
    assert_eq!(c, SubscriptionId(2));
}

#[test]
fn get_sub_finds_what_was_created() {
    let mut s = open_streamer();
    let id = s.create_sub(4);
    let sub = s.get_sub(id).expect("a created subscription is registered");
    assert_eq!(sub.id, id);
    assert_eq!(sub.flags, 4);
    assert_eq!(sub.state, SubState::Pending);
    assert!(s.get_sub(SubscriptionId(7)).is_none());
}

#[test]
fn close_sub_unregisters_the_id() {
    let mut s = open_streamer();
    let id = s.create_sub(1);
    s.attach_native(id, 11, 21);
    let acts = s.close_sub(id).expect("the id was registered");
    assert_eq!(
        acts,
        vec![
            NativeAction::CloseSubscription { handle: 11 },
            NativeAction::FreeContext { ctx: 21 },
        ]
    );
    assert!(s.get_sub(id).is_none());
    assert!(s.close_sub(id).is_none());
}

#[test]
fn closed_subscription_channel_accepts_no_more_events() {
    let mut s = open_streamer();
    let id = s.create_sub(1);
    s.attach_native(id, 11, 21);
    let mut tx = s.take_sender(id).expect("the send end leaves once");
    assert!(deliver_event(
        &mut tx,
        MarketEvent::Other { event_type: 3 },
    ));
    let before = s.get_sub(id).unwrap().get_event().unwrap();
    assert_eq!(before, MarketEvent::Other { event_type: 3 });
    s.close_sub(id).unwrap();
    assert!(!deliver_event(&mut tx, MarketEvent::Other { event_type: 4 }));
}

#[test]
fn the_send_end_leaves_exactly_once() {
    let mut s = open_streamer();
    let id = s.create_sub(1);
    assert!(s.take_sender(id).is_some());
    assert!(s.take_sender(id).is_none());
}

#[test]
fn a_context_is_never_freed_before_its_close() {
    let mut s = open_streamer();
    let id = s.create_sub(1);
    s.attach_native(id, 11, 21);
    let acts = s.close_sub(id).unwrap();
    let close_at = acts
        .iter()
        .position(|a| *a == NativeAction::CloseSubscription { handle: 11 })
        .unwrap();
    let free_at = acts.iter().position(|a| *a == NativeAction::FreeContext { ctx: 21 }).unwrap();
    assert!(close_at < free_at);
}

#[test]
fn teardown_closes_every_subscription_before_the_connection() {
    let mut s = open_streamer();
    let a = s.create_sub(1);
    let b = s.create_sub(1);
    s.attach_native(a, 11, 21);
    s.attach_native(b, 12, 22);
    let acts = s.teardown();
    assert_eq!(
        acts,
        vec![
            NativeAction::CloseSubscription { handle: 12 },
            NativeAction::FreeContext { ctx: 22 },
            NativeAction::CloseSubscription { handle: 11 },
            NativeAction::FreeContext { ctx: 21 },
            NativeAction::CloseConnection { handle: 99 },
        ]
    );
    assert!(s.get_sub(a).is_none());
    assert!(s.get_sub(b).is_none());
}

#[test]
fn attach_refuses_a_handle_or_context_already_held() {
    let mut s = open_streamer();
    let a = s.create_sub(1);
    let b = s.create_sub(1);
    assert!(s.attach_native(a, 11, 21));
    assert!(!s.attach_native(b, 11, 22));
    assert!(!s.attach_native(b, 12, 21));
    assert!(s.attach_native(b, 12, 22));
    assert!(!s.attach_native(b, 13, 23));
}

#[test]
fn a_pending_subscription_tears_down_without_native_calls() {
    let mut s = open_streamer();
    let id = s.create_sub(1);
    let acts = s.close_sub(id).unwrap();
    assert!(acts.is_empty());
}

#[test]
fn add_symbols_converts_to_wide_characters() {
    let mut s = open_streamer();
    let id = s.create_sub(1);
    s.attach_native(id, 11, 21);
    let sub = s.get_sub(id).unwrap();
    let call = sub
        .add_symbols(&vec![Symbol("SPX".to_string()), Symbol("AAPL".to_string())])
        .expect("an open subscription accepts symbols");
    assert_eq!(call.handle, 11);
    assert_eq!(call.symbols.len(), 2);
    assert_eq!(call.symbols[0], vec![b'S' as u32, b'P' as u32, b'X' as u32]);
    assert_eq!(call.symbols[1], vec![b'A' as u32, b'A' as u32, b'P' as u32, b'L' as u32]);
}

#[test]
fn add_symbols_rejects_any_nul_in_a_symbol() {
    let mut s = open_streamer();
    let id = s.create_sub(1);
    s.attach_native(id, 11, 21);
    let sub = s.get_sub(id).unwrap();
    assert!(sub.add_symbols(&vec![Symbol("SP\0X".to_string())]).is_none());
    assert!(sub.add_symbols(&vec![Symbol("SPX\0".to_string())]).is_none());
    assert!(sub
        .add_symbols(&vec![Symbol("SPX".to_string()), Symbol("\0".to_string())])
        .is_none());
}

#[test]
fn add_symbols_needs_an_open_subscription() {
    let mut s = open_streamer();
    let id = s.create_sub(1);
    let sub = s.get_sub(id).unwrap();
    assert!(sub.add_symbols(&vec![Symbol("SPX".to_string())]).is_none());
}

#[test]
fn no_free_is_planned_while_the_subscription_is_open() {
    let (tx, rx) = flume::unbounded();
    let mut sub = tastytrade::feed::QuoteSubscription {
        id: SubscriptionId(0),
        flags: 1,
        state: SubState::Open { handle: 11, ctx: 21 },
        event_receiver: rx,
        pending_sender: Some(tastytrade::channel::LoggedSender::new(tx)),
    };
    assert!(sub.finish_close().is_none());
    assert_eq!(sub.state, SubState::Open { handle: 11, ctx: 21 });
    assert_eq!(
        sub.begin_close(),
        Some(NativeAction::CloseSubscription { handle: 11 })
    );
    assert_eq!(sub.state, SubState::Closing { ctx: 21 });
    assert_eq!(sub.finish_close(), Some(NativeAction::FreeContext { ctx: 21 }));
    assert_eq!(sub.state, SubState::Freed);
    assert!(sub.begin_close().is_none());
    assert!(sub.finish_close().is_none());
}

#[test]
fn quote_feed_end_to_end() {
    let mut s = QuoteStreamer::connect(
        "demo.dxfeed.com".to_string(),
        "session-token".to_string(),
        Ok(7),
    )
    .unwrap();
    let id = s.create_sub(1);
    s.attach_native(id, 41, 51);
    let call = s
        .get_sub(id)
        .unwrap()
        .add_symbols(&vec![Symbol("SPX".to_string())])
        .unwrap();
    assert_eq!(call.symbols[0], vec![b'S' as u32, b'P' as u32, b'X' as u32]);
    let mut tx = s.take_sender(id).unwrap();
    let injected = MarketEvent::Quote(QuoteEvent {
        symbol: "SPX".to_string(),
        bid_price_bits: (10.0f64).to_bits(),
        ask_price_bits: (10.1f64).to_bits(),
    });
    assert!(deliver_event(&mut tx, injected));
    match s.get_sub(id).unwrap().get_event().unwrap() {
        MarketEvent::Quote(q) => {
            assert_eq!(q.symbol, "SPX");
            assert_eq!(f64::from_bits(q.bid_price_bits), 10.0);
            assert_eq!(f64::from_bits(q.ask_price_bits), 10.1);
        },
        other => panic!("expected the injected quote, got {:?}", other),
    }
}
