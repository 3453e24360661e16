//! The account-stream message taxonomy: outbound actions and the three
//! shapes of inbound frame.
use vstd::prelude::*;
use crate::json::{JVal, JsonValue};
use crate::orders::{LiveOrderRecord, LiveOrderRecordView};

verus! {

/// A command the application can send over the account stream.
#[derive(Debug, Clone, Copy, PartialEq, Eq, Structural)]
pub enum SubRequestAction {
    Heartbeat,
    Connect,
    PublicWatchlistsSubscribe,
    QuoteAlertsSubscribe,
    UserMessageSubscribe,
}

impl SubRequestAction {
    /// The kebab-case name this action carries on the wire.
    pub open spec fn wire(self) -> Seq<char> {
        match self {
            SubRequestAction::Heartbeat => "heartbeat"@,
            SubRequestAction::Connect => "connect"@,
            SubRequestAction::PublicWatchlistsSubscribe => "public-watchlists-subscribe"@,
            SubRequestAction::QuoteAlertsSubscribe => "quote-alerts-subscribe"@,
            SubRequestAction::UserMessageSubscribe => "user-message-subscribe"@,
        }
    }

    pub fn wire_name(&self) -> (r: &'static str)
        ensures
            r@ == self.wire(),
    {
        match self {
            SubRequestAction::Heartbeat => "heartbeat",
            SubRequestAction::Connect => "connect",
            SubRequestAction::PublicWatchlistsSubscribe => "public-watchlists-subscribe",
            SubRequestAction::QuoteAlertsSubscribe => "quote-alerts-subscribe",
            SubRequestAction::UserMessageSubscribe => "user-message-subscribe",
        }
    }
}

/// One queued outbound command: the action and its payload, if any.
#[derive(Debug)]
pub struct HandlerAction {
    pub action: SubRequestAction,
    pub value: Option<JsonValue>,
}

/// Mathematical view of a `HandlerAction`.
pub struct HandlerActionView {
    pub action: SubRequestAction,
    pub value: Option<JVal>,
}

impl View for HandlerAction {
    type V = HandlerActionView;

    open spec fn view(&self) -> HandlerActionView {
        HandlerActionView {
            action: self.action,
            value: match self.value {
                Some(v) => Some(v@),
                None => None,
            },
        }
    }
}

/// An inbound frame acknowledging a request.
#[derive(Debug, Clone)]
pub struct StatusMessage {
    pub status: String,
    pub action: String,
    pub web_socket_session_id: String,
    pub request_id: u64,
}

/// Mathematical view of a `StatusMessage`.
pub struct StatusMessageView {
    pub status: Seq<char>,
    pub action: Seq<char>,
    pub web_socket_session_id: Seq<char>,
    pub request_id: u64,
}

impl View for StatusMessage {
    type V = StatusMessageView;

    open spec fn view(&self) -> StatusMessageView {
        StatusMessageView {
            status: self.status@,
            action: self.action@,
            web_socket_session_id: self.web_socket_session_id@,
            request_id: self.request_id,
        }
    }
}

/// An inbound frame reporting a failed request.
#[derive(Debug, Clone)]
pub struct ErrorMessage {
    pub status: String,
    pub action: String,
    pub web_socket_session_id: String,
    pub message: String,
}

/// Mathematical view of an `ErrorMessage`.
pub struct ErrorMessageView {
    pub status: Seq<char>,
    pub action: Seq<char>,
    pub web_socket_session_id: Seq<char>,
    pub message: Seq<char>,
}

impl View for ErrorMessage {
    type V = ErrorMessageView;

    open spec fn view(&self) -> ErrorMessageView {
        ErrorMessageView {
            status: self.status@,
            action: self.action@,
            web_socket_session_id: self.web_socket_session_id@,
            message: self.message@,
        }
    }
}

/// The typed account notifications, dispatched on the envelope's `type`
/// field. Order events are fully decoded; balance and position bodies pass
/// through as the JSON documents the broker sent; the last two carry no
/// body at all.
#[derive(Debug)]
pub enum AccountMessage {
    Order(LiveOrderRecord),
    AccountBalance(JsonValue),
    CurrentPosition(JsonValue),
    OrderChain,
    ExternalTransaction,
}

/// Mathematical view of an `AccountMessage`.
pub enum AccountMessageView {
    Order(LiveOrderRecordView),
    AccountBalance(JVal),
    CurrentPosition(JVal),
    OrderChain,
    ExternalTransaction,
}

impl View for AccountMessage {
    type V = AccountMessageView;

    open spec fn view(&self) -> AccountMessageView {
        match self {
            AccountMessage::Order(r) => AccountMessageView::Order(r@),
            AccountMessage::AccountBalance(v) => AccountMessageView::AccountBalance(v@),
            AccountMessage::CurrentPosition(v) => AccountMessageView::CurrentPosition(v@),
            AccountMessage::OrderChain => AccountMessageView::OrderChain,
            AccountMessage::ExternalTransaction => AccountMessageView::ExternalTransaction,
        }
    }
}

/// One decoded inbound frame.
#[derive(Debug)]
pub enum AccountEvent {
    ErrorMessage(ErrorMessage),
    StatusMessage(StatusMessage),
    AccountMessage(AccountMessage),
}

/// Mathematical view of an `AccountEvent`.
pub enum AccountEventView {
    ErrorMessage(ErrorMessageView),
    StatusMessage(StatusMessageView),
    AccountMessage(AccountMessageView),
}

impl View for AccountEvent {
    type V = AccountEventView;

    open spec fn view(&self) -> AccountEventView {
        match self {
            AccountEvent::ErrorMessage(m) => AccountEventView::ErrorMessage(m@),
            AccountEvent::StatusMessage(m) => AccountEventView::StatusMessage(m@),
            AccountEvent::AccountMessage(m) => AccountEventView::AccountMessage(m@),
        }
    }
}

/// Why an inbound frame failed to decode. `Syntax`: not JSON at all;
/// `Shape`: JSON whose shape matches no recognized frame.
#[derive(Debug, Clone, Copy, PartialEq, Eq, Structural)]
pub enum DecodeError {
    Syntax,
    Shape,
}

} // verus!
