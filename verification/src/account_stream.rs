//! The consumer-facing account stream. Three tasks share its two unbounded
//! channels: a reader decodes socket frames into the event channel, a
//! writer drains the action queue onto the socket, and a heartbeat ticker
//! queues a heartbeat every period. This module holds the channel plumbing
//! and the action construction; the frame codec lives in `codec`. What was
//! handed to the action queue is recorded in the sender's ghost log, so a
//! send's contract pins exactly what one call queues.
use vstd::prelude::*;
use crate::accounts::AccountNumber;
use crate::channel::{channel, recv, send_logged, ChannelClosed, LoggedSender};
use crate::json::{jvals_of, lemma_jvals_of_index, lemma_jvals_of_len, JVal, JsonValue};
use crate::messages::{AccountEvent, HandlerAction, SubRequestAction};

verus! {

/// The account-stream endpoint: the certification host for a demo
/// session, the production host otherwise.
pub fn websocket_url(demo: bool) -> (r: &'static str)
    ensures
        demo ==> r@ == "wss://streamer.cert.tastyworks.com"@,
        !demo ==> r@ == "wss://streamer.tastyworks.com"@,
{
    if demo {
        "wss://streamer.cert.tastyworks.com"
    } else {
        "wss://streamer.tastyworks.com"
    }
}

/// The two consumer-side handles of one account stream: events in, queued
/// actions out.
pub struct AccountStreamer {
    pub event_receiver: flume::Receiver<AccountEvent>,
    pub action_sender: LoggedSender<HandlerAction>,
}

impl AccountStreamer {
    /// Every action this streamer's queue has accepted, in queue order.
    pub open spec fn sent(self) -> Seq<HandlerAction> {
        self.action_sender.log@
    }

    /// Fresh stream plumbing: the streamer the consumer holds, the send
    /// end the reader task feeds, and the receive end the writer task
    /// drains. Nothing has been queued yet.
    pub fn create() -> (r: (AccountStreamer, flume::Sender<AccountEvent>, flume::Receiver<
        HandlerAction,
    >))
        ensures
            r.0.sent() == Seq::<HandlerAction>::empty(),
    {
        let (event_tx, event_rx) = channel::<AccountEvent>();
        let (action_tx, action_rx) = channel::<HandlerAction>();
        (
            AccountStreamer {
                event_receiver: event_rx,
                action_sender: LoggedSender::new(action_tx),
            },
            event_tx,
            action_rx,
        )
    }

    /// Queues exactly one action, carrying exactly the given kind and
    /// payload; insertion never blocks. `false` means the writer is gone:
    /// the action was dropped and the queue is unchanged — delivery is
    /// best-effort.
    pub fn send(&mut self, action: SubRequestAction, value: Option<JsonValue>) -> (queued: bool)
        ensures
            final(self).event_receiver == old(self).event_receiver,
            final(self).action_sender.inner == old(self).action_sender.inner,
            queued ==> final(self).sent() == old(self).sent().push(
                HandlerAction { action, value },
            ),
            !queued ==> final(self).sent() == old(self).sent(),
    {
        match send_logged(&mut self.action_sender, HandlerAction { action, value }) {
            Ok(()) => true,
            Err(_) => false,
        }
    }

    /// The connect action for one account: its payload is the one-element
    /// array holding the account number.
    pub fn connect_action(account_number: &AccountNumber) -> (a: HandlerAction)
        ensures
            a@.action == SubRequestAction::Connect,
            a@.value == Some(JVal::Arr(seq![JVal::Str(account_number.0@)])),
    {
        let mut items: Vec<JsonValue> = Vec::new();
        items.push(JsonValue::Str(account_number.0.clone()));
        proof {
            lemma_jvals_of_len(items@);
            lemma_jvals_of_index(items@, 0);
            assert(jvals_of(items@) =~= seq![JVal::Str(account_number.0@)]);
        }
        HandlerAction { action: SubRequestAction::Connect, value: Some(JsonValue::Arr(items)) }
    }

    /// Subscribes the stream to one account's order, balance and position
    /// events: queues exactly one connect action whose payload is the
    /// one-element array holding the account number.
    pub fn subscribe_to_account(&mut self, account_number: &AccountNumber) -> (queued: bool)
        ensures
            final(self).event_receiver == old(self).event_receiver,
            final(self).action_sender.inner == old(self).action_sender.inner,
            queued ==> ({
                let a = final(self).sent().last();
                &&& final(self).sent() == old(self).sent().push(a)
                &&& a@.action == SubRequestAction::Connect
                &&& a@.value == Some(JVal::Arr(seq![JVal::Str(account_number.0@)]))
            }),
            !queued ==> final(self).sent() == old(self).sent(),
    {
        let a = Self::connect_action(account_number);
        match send_logged(&mut self.action_sender, a) {
            Ok(()) => true,
            Err(_) => false,
        }
    }

    /// Blocks until the next decoded event, or reports the end of the
    /// stream — the only signal a terminated reader leaves.
    pub fn get_event(&self) -> Result<AccountEvent, ChannelClosed> {
        recv(&self.event_receiver)
    }
}

} // verus!
