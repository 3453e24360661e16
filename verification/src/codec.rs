//! The frame codec of the account stream. Inbound JSON frames are
//! classified by shape, in a fixed priority: the error shape, then the
//! status shape, then the typed envelope. Outbound frames carry the auth
//! token, the action's wire name, and the payload.
use vstd::prelude::*;
use crate::json::{
    dec_val, is_u64_text, jfields_of, json_text, lemma_jfields_of_index, lemma_jfields_of_len,
    lookup, parse_json, parse_u64, parsed_json, JVal, JsonValue,
};
use crate::messages::{
    AccountEvent, AccountEventView, AccountMessage, AccountMessageView, DecodeError, ErrorMessage,
    ErrorMessageView, HandlerAction, HandlerActionView, StatusMessage, StatusMessageView,
};
use crate::accounts::AccountNumber;
use crate::orders::{
    DecimalText, LiveOrderRecord, LiveOrderRecordView, OrderId, OrderStatus, OrderType,
    PriceEffect, Symbol, TimeInForce,
};

verus! {

/// The string value of a field, where the field holds a string.
pub open spec fn str_field(fs: Seq<(Seq<char>, JVal)>, key: Seq<char>) -> Option<Seq<char>> {
    match lookup(fs, key) {
        Some(JVal::Str(s)) => Some(s),
        _ => None,
    }
}

/// The decimal text of a field, where the field holds a number.
pub open spec fn num_field(fs: Seq<(Seq<char>, JVal)>, key: Seq<char>) -> Option<Seq<char>> {
    match lookup(fs, key) {
        Some(JVal::Num(s)) => Some(s),
        _ => None,
    }
}

/// The value of a field, where the field holds a number that denotes a
/// `u64`.
pub open spec fn u64_field(fs: Seq<(Seq<char>, JVal)>, key: Seq<char>) -> Option<u64> {
    match num_field(fs, key) {
        Some(s) => if is_u64_text(s) {
            Some(dec_val(s) as u64)
        } else {
            None
        },
        None => None,
    }
}

/// The value of a field, where the field holds a boolean.
pub open spec fn bool_field(fs: Seq<(Seq<char>, JVal)>, key: Seq<char>) -> Option<bool> {
    match lookup(fs, key) {
        Some(JVal::Bool(b)) => Some(b),
        _ => None,
    }
}

/// The error shape: `status`, `action`, `web-socket-session-id` and
/// `message`, all strings.
pub open spec fn error_message_of(fs: Seq<(Seq<char>, JVal)>) -> Option<ErrorMessageView> {
    if str_field(fs, "status"@) is Some && str_field(fs, "action"@) is Some && str_field(
        fs,
        "web-socket-session-id"@,
    ) is Some && str_field(fs, "message"@) is Some {
        Some(
            ErrorMessageView {
                status: str_field(fs, "status"@)->Some_0,
                action: str_field(fs, "action"@)->Some_0,
                web_socket_session_id: str_field(fs, "web-socket-session-id"@)->Some_0,
                message: str_field(fs, "message"@)->Some_0,
            },
        )
    } else {
        None
    }
}

/// The status shape: the same three strings with a numeric `request-id`
/// instead of a message.
pub open spec fn status_message_of(fs: Seq<(Seq<char>, JVal)>) -> Option<StatusMessageView> {
    if str_field(fs, "status"@) is Some && str_field(fs, "action"@) is Some && str_field(
        fs,
        "web-socket-session-id"@,
    ) is Some && u64_field(fs, "request-id"@) is Some {
        Some(
            StatusMessageView {
                status: str_field(fs, "status"@)->Some_0,
                action: str_field(fs, "action"@)->Some_0,
                web_socket_session_id: str_field(fs, "web-socket-session-id"@)->Some_0,
                request_id: u64_field(fs, "request-id"@)->Some_0,
            },
        )
    } else {
        None
    }
}

pub open spec fn tif_field(fs: Seq<(Seq<char>, JVal)>, key: Seq<char>) -> Option<TimeInForce> {
    match str_field(fs, key) {
        Some(s) => TimeInForce::from_wire(s),
        None => None,
    }
}

pub open spec fn order_type_field(fs: Seq<(Seq<char>, JVal)>, key: Seq<char>) -> Option<OrderType> {
    match str_field(fs, key) {
        Some(s) => OrderType::from_wire(s),
        None => None,
    }
}

pub open spec fn price_effect_field(fs: Seq<(Seq<char>, JVal)>, key: Seq<char>) -> Option<
    PriceEffect,
> {
    match str_field(fs, key) {
        Some(s) => PriceEffect::from_wire(s),
        None => None,
    }
}

pub open spec fn order_status_field(fs: Seq<(Seq<char>, JVal)>, key: Seq<char>) -> Option<
    OrderStatus,
> {
    match str_field(fs, key) {
        Some(s) => OrderStatus::from_wire(s),
        None => None,
    }
}

/// A working-order body: every field present and well-typed.
pub open spec fn order_record_of(j: JVal) -> Option<LiveOrderRecordView> {
    match j {
        JVal::Obj(fs) => {
            if u64_field(fs, "id"@) is Some && str_field(fs, "account-number"@) is Some
                && tif_field(fs, "time-in-force"@) is Some && order_type_field(
                fs,
                "order-type"@,
            ) is Some && u64_field(fs, "size"@) is Some && str_field(
                fs,
                "underlying-symbol"@,
            ) is Some && num_field(fs, "price"@) is Some && price_effect_field(
                fs,
                "price-effect"@,
            ) is Some && order_status_field(fs, "status"@) is Some && bool_field(
                fs,
                "cancellable"@,
            ) is Some && bool_field(fs, "editable"@) is Some && bool_field(fs, "edited"@) is Some {
                Some(
                    LiveOrderRecordView {
                        id: u64_field(fs, "id"@)->Some_0,
                        account_number: str_field(fs, "account-number"@)->Some_0,
                        time_in_force: tif_field(fs, "time-in-force"@)->Some_0,
                        order_type: order_type_field(fs, "order-type"@)->Some_0,
                        size: u64_field(fs, "size"@)->Some_0,
                        underlying_symbol: str_field(fs, "underlying-symbol"@)->Some_0,
                        price: num_field(fs, "price"@)->Some_0,
                        price_effect: price_effect_field(fs, "price-effect"@)->Some_0,
                        status: order_status_field(fs, "status"@)->Some_0,
                        cancellable: bool_field(fs, "cancellable"@)->Some_0,
                        editable: bool_field(fs, "editable"@)->Some_0,
                        edited: bool_field(fs, "edited"@)->Some_0,
                    },
                )
            } else {
                None
            }
        },
        _ => None,
    }
}

/// How one parsed frame is classified: the error shape first, then the
/// status shape, then the typed envelope; anything else is a `Shape`
/// failure, distinct from the recognized body-less envelopes.
pub open spec fn classify_frame(j: JVal) -> Result<AccountEventView, DecodeError> {
    match j {
        JVal::Obj(fs) => {
            if error_message_of(fs) is Some {
                Ok(AccountEventView::ErrorMessage(error_message_of(fs)->Some_0))
            } else if status_message_of(fs) is Some {
                Ok(AccountEventView::StatusMessage(status_message_of(fs)->Some_0))
            } else {
                match str_field(fs, "type"@) {
                    Some(t) => {
                        if t == "Order"@ {
                            match lookup(fs, "data"@) {
                                Some(d) => match order_record_of(d) {
                                    Some(rec) => Ok(
                                        AccountEventView::AccountMessage(
                                            AccountMessageView::Order(rec),
                                        ),
                                    ),
                                    None => Err(DecodeError::Shape),
                                },
                                None => Err(DecodeError::Shape),
                            }
                        } else if t == "AccountBalance"@ {
                            match lookup(fs, "data"@) {
                                Some(d) => Ok(
                                    AccountEventView::AccountMessage(
                                        AccountMessageView::AccountBalance(d),
                                    ),
                                ),
                                None => Err(DecodeError::Shape),
                            }
                        } else if t == "CurrentPosition"@ {
                            match lookup(fs, "data"@) {
                                Some(d) => Ok(
                                    AccountEventView::AccountMessage(
                                        AccountMessageView::CurrentPosition(d),
                                    ),
                                ),
                                None => Err(DecodeError::Shape),
                            }
                        } else if t == "OrderChain"@ {
                            Ok(AccountEventView::AccountMessage(AccountMessageView::OrderChain))
                        } else if t == "ExternalTransaction"@ {
                            Ok(
                                AccountEventView::AccountMessage(
                                    AccountMessageView::ExternalTransaction,
                                ),
                            )
                        } else {
                            Err(DecodeError::Shape)
                        }
                    },
                    None => Err(DecodeError::Shape),
                }
            }
        },
        _ => Err(DecodeError::Shape),
    }
}

/// What a frame text decodes to: a syntax failure where the text is not
/// JSON, else its classification.
pub open spec fn decoded_frame(t: Seq<char>) -> Result<AccountEventView, DecodeError> {
    match parsed_json(t) {
        Some(j) => classify_frame(j),
        None => Err(DecodeError::Syntax),
    }
}

/// The view of a decode result.
pub open spec fn decode_view(r: Result<AccountEvent, DecodeError>) -> Result<
    AccountEventView,
    DecodeError,
> {
    match r {
        Ok(e) => Ok(e@),
        Err(x) => Err(x),
    }
}

/// The string value of a field of a JSON object.
pub fn get_str_field<'a>(v: &'a JsonValue, key: &str) -> (r: Option<&'a String>)
    ensures
        match r {
            Some(s) => v@ matches JVal::Obj(fs) && str_field(fs, key@) == Some(s@),
            None => !(v@ matches JVal::Obj(fs) && str_field(fs, key@) is Some),
        },
{
    match v.get_field(key) {
        Some(f) => match f {
            JsonValue::Str(s) => Some(s),
            _ => None,
        },
        None => None,
    }
}

/// The decimal text of a numeric field of a JSON object.
pub fn get_num_field<'a>(v: &'a JsonValue, key: &str) -> (r: Option<&'a String>)
    ensures
        match r {
            Some(s) => v@ matches JVal::Obj(fs) && num_field(fs, key@) == Some(s@),
            None => !(v@ matches JVal::Obj(fs) && num_field(fs, key@) is Some),
        },
{
    match v.get_field(key) {
        Some(f) => match f {
            JsonValue::Num(s) => Some(s),
            _ => None,
        },
        None => None,
    }
}

/// The value of a numeric field that denotes a `u64`.
pub fn get_u64_field(v: &JsonValue, key: &str) -> (r: Option<u64>)
    ensures
        match r {
            Some(n) => v@ matches JVal::Obj(fs) && u64_field(fs, key@) == Some(n),
            None => !(v@ matches JVal::Obj(fs) && u64_field(fs, key@) is Some),
        },
{
    match get_num_field(v, key) {
        Some(s) => parse_u64(s.as_str()),
        None => None,
    }
}

/// The value of a boolean field of a JSON object.
pub fn get_bool_field(v: &JsonValue, key: &str) -> (r: Option<bool>)
    ensures
        match r {
            Some(b) => v@ matches JVal::Obj(fs) && bool_field(fs, key@) == Some(b),
            None => !(v@ matches JVal::Obj(fs) && bool_field(fs, key@) is Some),
        },
{
    match v.get_field(key) {
        Some(f) => match f {
            JsonValue::Bool(b) => Some(*b),
            _ => None,
        },
        None => None,
    }
}

/// Decodes the error shape.
fn decode_error_message(v: &JsonValue) -> (r: Option<ErrorMessage>)
    ensures
        match r {
            Some(m) => v@ matches JVal::Obj(fs) && error_message_of(fs) == Some(m@),
            None => !(v@ matches JVal::Obj(fs) && error_message_of(fs) is Some),
        },
{
    let status = match get_str_field(v, "status") {
        Some(s) => s.clone(),
        None => {
            return None;
        },
    };
    let action = match get_str_field(v, "action") {
        Some(s) => s.clone(),
        None => {
            return None;
        },
    };
    let session = match get_str_field(v, "web-socket-session-id") {
        Some(s) => s.clone(),
        None => {
            return None;
        },
    };
    let message = match get_str_field(v, "message") {
        Some(s) => s.clone(),
        None => {
            return None;
        },
    };
    Some(ErrorMessage { status, action, web_socket_session_id: session, message })
}

/// Decodes the status shape.
fn decode_status_message(v: &JsonValue) -> (r: Option<StatusMessage>)
    ensures
        match r {
            Some(m) => v@ matches JVal::Obj(fs) && status_message_of(fs) == Some(m@),
            None => !(v@ matches JVal::Obj(fs) && status_message_of(fs) is Some),
        },
{
    let status = match get_str_field(v, "status") {
        Some(s) => s.clone(),
        None => {
            return None;
        },
    };
    let action = match get_str_field(v, "action") {
        Some(s) => s.clone(),
        None => {
            return None;
        },
    };
    let session = match get_str_field(v, "web-socket-session-id") {
        Some(s) => s.clone(),
        None => {
            return None;
        },
    };
    let request_id = match get_u64_field(v, "request-id") {
        Some(n) => n,
        None => {
            return None;
        },
    };
    Some(StatusMessage { status, action, web_socket_session_id: session, request_id })
}

/// Decodes a working-order body.
fn decode_order(v: &JsonValue) -> (r: Option<LiveOrderRecord>)
    ensures
        match r {
            Some(rec) => order_record_of(v@) == Some(rec@),
            None => order_record_of(v@) is None,
        },
{
    let id = match get_u64_field(v, "id") {
        Some(n) => OrderId(n),
        None => {
            return None;
        },
    };
    let account_number = match get_str_field(v, "account-number") {
        Some(s) => AccountNumber(s.clone()),
        None => {
            return None;
        },
    };
    let time_in_force = match get_str_field(v, "time-in-force") {
        Some(s) => match TimeInForce::parse_wire(s.as_str()) {
            Some(t) => t,
            None => {
                return None;
            },
        },
        None => {
            return None;
        },
    };
    let order_type = match get_str_field(v, "order-type") {
        Some(s) => match OrderType::parse_wire(s.as_str()) {
            Some(t) => t,
            None => {
                return None;
            },
        },
        None => {
            return None;
        },
    };
    let size = match get_u64_field(v, "size") {
        Some(n) => n,
        None => {
            return None;
        },
    };
    let underlying_symbol = match get_str_field(v, "underlying-symbol") {
        Some(s) => Symbol(s.clone()),
        None => {
            return None;
        },
    };
    let price = match get_num_field(v, "price") {
        Some(s) => DecimalText(s.clone()),
        None => {
            return None;
        },
    };
    let price_effect = match get_str_field(v, "price-effect") {
        Some(s) => match PriceEffect::parse_wire(s.as_str()) {
            Some(t) => t,
            None => {
                return None;
            },
        },
        None => {
            return None;
        },
    };
    let status = match get_str_field(v, "status") {
        Some(s) => match OrderStatus::parse_wire(s.as_str()) {
            Some(t) => t,
            None => {
                return None;
            },
        },
        None => {
            return None;
        },
    };
    let cancellable = match get_bool_field(v, "cancellable") {
        Some(b) => b,
        None => {
            return None;
        },
    };
    let editable = match get_bool_field(v, "editable") {
        Some(b) => b,
        None => {
            return None;
        },
    };
    let edited = match get_bool_field(v, "edited") {
        Some(b) => b,
        None => {
            return None;
        },
    };
    Some(
        LiveOrderRecord {
            id,
            account_number,
            time_in_force,
            order_type,
            size,
            underlying_symbol,
            price,
            price_effect,
            status,
            cancellable,
            editable,
            edited,
        },
    )
}

/// Classifies one parsed frame.
pub fn classify(v: &JsonValue) -> (r: Result<AccountEvent, DecodeError>)
    ensures
        decode_view(r) == classify_frame(v@),
{
    if let Some(m) = decode_error_message(v) {
        return Ok(AccountEvent::ErrorMessage(m));
    }
    if let Some(m) = decode_status_message(v) {
        return Ok(AccountEvent::StatusMessage(m));
    }
    let tag = match get_str_field(v, "type") {
        Some(s) => s,
        None => {
            return Err(DecodeError::Shape);
        },
    };
    if crate::json::str_eq(tag.as_str(), "Order") {
        match v.get_field("data") {
            Some(d) => match decode_order(d) {
                Some(rec) => Ok(AccountEvent::AccountMessage(AccountMessage::Order(rec))),
                None => Err(DecodeError::Shape),
            },
            None => Err(DecodeError::Shape),
        }
    } else if crate::json::str_eq(tag.as_str(), "AccountBalance") {
        match v.get_field("data") {
            Some(d) => Ok(
                AccountEvent::AccountMessage(AccountMessage::AccountBalance(d.duplicate())),
            ),
            None => Err(DecodeError::Shape),
        }
    } else if crate::json::str_eq(tag.as_str(), "CurrentPosition") {
        match v.get_field("data") {
            Some(d) => Ok(
                AccountEvent::AccountMessage(AccountMessage::CurrentPosition(d.duplicate())),
            ),
            None => Err(DecodeError::Shape),
        }
    } else if crate::json::str_eq(tag.as_str(), "OrderChain") {
        Ok(AccountEvent::AccountMessage(AccountMessage::OrderChain))
    } else if crate::json::str_eq(tag.as_str(), "ExternalTransaction") {
        Ok(AccountEvent::AccountMessage(AccountMessage::ExternalTransaction))
    } else {
        Err(DecodeError::Shape)
    }
}

/// Decodes one inbound frame text.
pub fn decode_frame(text: &str) -> (r: Result<AccountEvent, DecodeError>)
    ensures
        decode_view(r) == decoded_frame(text@),
{
    match parse_json(text) {
        Some(j) => classify(&j),
        None => Err(DecodeError::Syntax),
    }
}

/// The fields of one outbound frame: the auth token, the action's wire
/// name, and the payload (`null` where there is none), in that order.
pub open spec fn frame_fields(token: Seq<char>, a: HandlerActionView) -> Seq<(Seq<char>, JVal)> {
    seq![
        ("auth-token"@, JVal::Str(token)),
        ("action"@, JVal::Str(a.action.wire())),
        (
            "value"@,
            match a.value {
                Some(v) => v,
                None => JVal::Null,
            },
        ),
    ]
}

/// The document of one outbound frame.
pub open spec fn frame_model(token: Seq<char>, a: HandlerActionView) -> JVal {
    JVal::Obj(frame_fields(token, a))
}

/// The text of one outbound frame.
pub open spec fn frame_text(token: Seq<char>, a: HandlerActionView) -> Seq<char> {
    json_text(frame_model(token, a))
}

/// Law: every outbound frame embeds the auth token it was built with; its
/// `auth-token` field holds exactly that token.
pub proof fn lemma_frame_embeds_token(token: Seq<char>, a: HandlerActionView)
    ensures
        lookup(frame_fields(token, a), "auth-token"@) == Some(JVal::Str(token)),
{
}

/// Builds the frame text for one queued action.
pub fn encode_action(token: &str, action: HandlerAction) -> (r: String)
    ensures
        r@ == frame_text(token@, action@),
{
    let ghost a0 = action@;
    let mut fields: Vec<(String, JsonValue)> = Vec::new();
    fields.push((String::from_str("auth-token"), JsonValue::Str(String::from_str(token))));
    fields.push(
        (String::from_str("action"), JsonValue::Str(String::from_str(action.action.wire_name()))),
    );
    let payload = match action.value {
        Some(v) => v,
        None => JsonValue::Null,
    };
    fields.push((String::from_str("value"), payload));
    let doc = JsonValue::Obj(fields);
    proof {
        let gf = doc->Obj_0@;
        lemma_jfields_of_len(gf);
        lemma_jfields_of_index(gf, 0);
        lemma_jfields_of_index(gf, 1);
        lemma_jfields_of_index(gf, 2);
        assert(jfields_of(gf) =~= frame_fields(token@, a0));
    }
    doc.render()
}

/// The writer's task over a batch: one frame per queued action, in queue
/// order, each embedding the token. Sending `k` actions yields `k` frames.
pub fn encode_frames(token: &str, actions: &Vec<HandlerAction>) -> (r: Vec<String>)
    ensures
        r@.len() == actions@.len(),
        forall|i: int|
            0 <= i < actions@.len() ==> r@[i]@ == frame_text(token@, actions@[i]@),
{
    let mut out: Vec<String> = Vec::new();
    let mut i: usize = 0;
    while i < actions.len()
        invariant
            i <= actions@.len(),
            out@.len() == i,
            forall|j: int| 0 <= j < i ==> out@[j]@ == frame_text(token@, actions@[j]@),
        decreases actions@.len() - i,
    {
        let a = HandlerAction {
            action: actions[i].action,
            value: match &actions[i].value {
                Some(v) => Some(v.duplicate()),
                None => None,
            },
        };
        assert(a@ == actions@[i as int]@);
        out.push(encode_action(token, a));
        i = i + 1;
    }
    out
}

/// The reader's task over a batch: for every sequence of well-formed
/// frames, exactly one event per frame comes out, in frame order; one
/// malformed frame stops decoding with its error.
pub fn decode_batch(frames: &Vec<String>) -> (r: Result<Vec<AccountEvent>, DecodeError>)
    ensures
        match r {
            Ok(events) => {
                &&& events@.len() == frames@.len()
                &&& forall|i: int|
                    0 <= i < frames@.len() ==> decoded_frame(frames@[i]@) == Ok::<
                        AccountEventView,
                        DecodeError,
                    >(events@[i]@)
            },
            Err(e) => exists|i: int|
                {
                    &&& 0 <= i < frames@.len()
                    &&& decoded_frame(frames@[i]@) == Err::<AccountEventView, DecodeError>(e)
                    &&& forall|j: int| 0 <= j < i ==> decoded_frame(frames@[j]@) is Ok
                },
        },
{
    let mut out: Vec<AccountEvent> = Vec::new();
    let mut i: usize = 0;
    while i < frames.len()
        invariant
            i <= frames@.len(),
            out@.len() == i,
            forall|j: int|
                0 <= j < i ==> decoded_frame(frames@[j]@) == Ok::<AccountEventView, DecodeError>(
                    out@[j]@,
                ),
        decreases frames@.len() - i,
    {
        match decode_frame(frames[i].as_str()) {
            Ok(e) => {
                out.push(e);
            },
            Err(x) => {
                proof {
                    let k = i as int;
                    assert(decoded_frame(frames@[k]@) == Err::<AccountEventView, DecodeError>(x));
                }
                return Err(x);
            },
        }
        i = i + 1;
    }
    Ok(out)
}

} // verus!
