use tastytrade::codec::{decode_batch, decode_frame, encode_action, encode_frames};
use tastytrade::json::{parse_json, parse_u64, JsonValue};
use tastytrade::messages::{
    AccountEvent, AccountMessage, DecodeError, HandlerAction, SubRequestAction,
};
use tastytrade::orders::{OrderStatus, OrderType, PriceEffect, TimeInForce};

#[test]
fn decode_error_message_shape() {
    let text = r#"{"status":"error","action":"connect","web-socket-session-id":"abc","message":"bad token"}"#;
    match decode_frame(text) {
        Ok(AccountEvent::ErrorMessage(m)) => {
            assert_eq!(m.status, "error");
            assert_eq!(m.action, "connect");
            assert_eq!(m.web_socket_session_id, "abc");
            assert_eq!(m.message, "bad token");
        },
        other => panic!("expected an error message, got {:?}", other),
    }
}

#[test]
fn decode_status_message_shape() {
    let text = r#"{"status":"ok","action":"heartbeat","web-socket-session-id":"abc","request-id":7}"#;
    match decode_frame(text) {
        Ok(AccountEvent::StatusMessage(m)) => {
            assert_eq!(m.status, "ok");
            assert_eq!(m.action, "heartbeat");
            assert_eq!(m.web_socket_session_id, "abc");
            assert_eq!(m.request_id, 7);
        },
        other => panic!("expected a status message, got {:?}", other),
    }
}

#[test]
fn error_shape_takes_priority_over_status_shape() {
    let text = r#"{"status":"error","action":"connect","web-socket-session-id":"abc","message":"no","request-id":3}"#;
    match decode_frame(text) {
        Ok(AccountEvent::ErrorMessage(m)) => assert_eq!(m.message, "no"),
        other => panic!("expected the error shape to win, got {:?}", other),
    }
}

#[test]
fn decode_order_envelope() {
    let text = r#"{"type":"Order","data":{"id":123,"account-number":"5WT0001","time-in-force":"Day","order-type":"Limit","size":100,"underlying-symbol":"AAPL","price":187.25,"price-effect":"Debit","status":"Live","cancellable":true,"editable":false,"edited":false}}"#;
    match decode_frame(text) {
        Ok(AccountEvent::AccountMessage(AccountMessage::Order(rec))) => {
            assert_eq!(rec.id.0, 123);
            assert_eq!(rec.account_number.0, "5WT0001");
            assert_eq!(rec.time_in_force, TimeInForce::Day);
            assert_eq!(rec.order_type, OrderType::Limit);
            assert_eq!(rec.size, 100);
            assert_eq!(rec.underlying_symbol.0, "AAPL");
            assert_eq!(rec.price.0, "187.25");
            assert_eq!(rec.price_effect, PriceEffect::Debit);
            assert_eq!(rec.status, OrderStatus::Live);
            assert!(rec.cancellable);
            assert!(!rec.editable);
            assert!(!rec.edited);
        },
        other => panic!("expected an order event, got {:?}", other),
    }
}

#[test]
fn decode_order_with_missing_field_fails() {
    let text = r#"{"type":"Order","data":{"id":123}}"#;
    assert_eq!(decode_frame(text).unwrap_err(), DecodeError::Shape);
}

#[test]
fn decode_order_chain_has_no_body() {
    match decode_frame(r#"{"type":"OrderChain"}"#) {
        Ok(AccountEvent::AccountMessage(AccountMessage::OrderChain)) => {},
        other => panic!("expected an order chain, got {:?}", other),
    }
}

#[test]
fn decode_external_transaction_has_no_body() {
    match decode_frame(r#"{"type":"ExternalTransaction"}"#) {
        Ok(AccountEvent::AccountMessage(AccountMessage::ExternalTransaction)) => {},
        other => panic!("expected an external transaction, got {:?}", other),
    }
}

#[test]
fn decode_balance_envelope_keeps_body() {
    let text = r#"{"type":"AccountBalance","data":{"cash-balance":100.5}}"#;
    match decode_frame(text) {
        Ok(AccountEvent::AccountMessage(AccountMessage::AccountBalance(body))) => {
            match body.get_field("cash-balance") {
                Some(JsonValue::Num(n)) => assert_eq!(n, "100.5"),
                other => panic!("expected the balance body, got {:?}", other),
            }
        },
        other => panic!("expected a balance event, got {:?}", other),
    }
}

#[test]
fn decode_position_envelope_keeps_body() {
    let text = r#"{"type":"CurrentPosition","data":{"symbol":"SPY"}}"#;
    match decode_frame(text) {
        Ok(AccountEvent::AccountMessage(AccountMessage::CurrentPosition(_))) => {},
        other => panic!("expected a position event, got {:?}", other),
    }
}

#[test]
fn decode_unrecognized_shape_is_distinct() {
    assert_eq!(decode_frame(r#"{"foo":"bar"}"#).unwrap_err(), DecodeError::Shape);
    assert_eq!(decode_frame(r#"{"type":"Nope"}"#).unwrap_err(), DecodeError::Shape);
    assert_eq!(decode_frame(r#"[1,2]"#).unwrap_err(), DecodeError::Shape);
}

#[test]
fn decode_non_json_is_a_syntax_failure() {
    assert_eq!(decode_frame("not json").unwrap_err(), DecodeError::Syntax);
    assert_eq!(decode_frame("").unwrap_err(), DecodeError::Syntax);
}

#[test]
fn encode_heartbeat_frame_exact_text() {
    let frame = encode_action(
        "tok",
        HandlerAction { action: SubRequestAction::Heartbeat, value: None },
    );
    assert_eq!(frame, r#"{"auth-token":"tok","action":"heartbeat","value":null}"#);
}

#[test]
fn encode_connect_frame_exact_text() {
    let payload = JsonValue::Arr(vec![JsonValue::Str("5WT0001".to_string())]);
    let frame = encode_action(
        "tok",
        HandlerAction { action: SubRequestAction::Connect, value: Some(payload) },
    );
    assert_eq!(frame, r#"{"auth-token":"tok","action":"connect","value":["5WT0001"]}"#);
}

#[test]
fn k_actions_give_k_frames_each_with_the_token() {
    let actions = vec![
        HandlerAction { action: SubRequestAction::Heartbeat, value: None },
        HandlerAction { action: SubRequestAction::QuoteAlertsSubscribe, value: None },
        HandlerAction { action: SubRequestAction::UserMessageSubscribe, value: None },
    ];
    let frames = encode_frames("secret-token", &actions);
    assert_eq!(frames.len(), 3);
    for frame in &frames {
        assert!(frame.contains(r#""auth-token":"secret-token""#));
    }
    assert!(frames[0].contains("heartbeat"));
    assert!(frames[1].contains("quote-alerts-subscribe"));
    assert!(frames[2].contains("user-message-subscribe"));
}

#[test]
fn n_valid_frames_decode_to_n_events_in_order() {
    let frames = vec![
        r#"{"status":"ok","action":"connect","web-socket-session-id":"s","request-id":1}"#
            .to_string(),
        r#"{"type":"OrderChain"}"#.to_string(),
        r#"{"status":"error","action":"connect","web-socket-session-id":"s","message":"m"}"#
            .to_string(),
    ];
    let events = decode_batch(&frames).unwrap();
    assert_eq!(events.len(), 3);
    assert!(matches!(events[0], AccountEvent::StatusMessage(_)));
    assert!(matches!(events[1], AccountEvent::AccountMessage(AccountMessage::OrderChain)));
    assert!(matches!(events[2], AccountEvent::ErrorMessage(_)));
}

#[test]
fn a_malformed_frame_stops_the_batch() {
    let frames = vec![
        r#"{"type":"OrderChain"}"#.to_string(),
        "garbage".to_string(),
        r#"{"type":"OrderChain"}"#.to_string(),
    ];
    assert_eq!(decode_batch(&frames).unwrap_err(), DecodeError::Syntax);
}

#[test]
fn render_and_parse_round_trip() {
    let doc = JsonValue::Obj(vec![
        ("plain".to_string(), JsonValue::Str("text".to_string())),
        ("tricky".to_string(), JsonValue::Str("a\"b\\c\nd\te".to_string())),
        ("flag".to_string(), JsonValue::Bool(true)),
        ("nothing".to_string(), JsonValue::Null),
        (
            "nested".to_string(),
            JsonValue::Arr(vec![JsonValue::Num("1".to_string()), JsonValue::Num("2.5".to_string())]),
        ),
    ]);
    let text = doc.render();
    let back = parse_json(&text).expect("the renderer must produce JSON that parses");
    match back.get_field("tricky") {
        Some(JsonValue::Str(s)) => assert_eq!(s, "a\"b\\c\nd\te"),
        other => panic!("escaping did not round-trip: {:?}", other),
    }
    match back.get_field("nested") {
        Some(JsonValue::Arr(items)) => assert_eq!(items.len(), 2),
        other => panic!("array did not round-trip: {:?}", other),
    }
}

#[test]
fn render_escapes_exactly() {
    let doc = JsonValue::Str("a\"b\\c\n".to_string());
    assert_eq!(doc.render(), "\"a\\\"b\\\\c\\n\"");
    let ctl = JsonValue::Str("\u{1}".to_string());
    assert_eq!(ctl.render(), "\"\\u0001\"");
}

#[test]
fn parse_json_reads_fields_regardless_of_order() {
    let v = parse_json(r#"{"b":2,"a":1}"#).unwrap();
    assert!(matches!(v.get_field("a"), Some(JsonValue::Num(_))));
    assert!(matches!(v.get_field("b"), Some(JsonValue::Num(_))));
    assert!(v.get_field("c").is_none());
}

#[test]
fn parse_u64_accepts_digits_only() {
    assert_eq!(parse_u64("0"), Some(0));
    assert_eq!(parse_u64("42"), Some(42));
    assert_eq!(parse_u64("18446744073709551615"), Some(u64::MAX));
    assert_eq!(parse_u64("18446744073709551616"), None);
    assert_eq!(parse_u64(""), None);
    assert_eq!(parse_u64("12a"), None);
    assert_eq!(parse_u64("-1"), None);
    assert_eq!(parse_u64("1.5"), None);
}

#[test]
fn request_id_must_be_an_integer() {
    let text = r#"{"status":"ok","action":"x","web-socket-session-id":"s","request-id":1.5}"#;
    assert_eq!(decode_frame(text).unwrap_err(), DecodeError::Shape);
}
