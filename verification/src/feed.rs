//! The market-data feed: one native connection owning a registry of
//! subscriptions. The native SDK is driven through explicit handles and
//! call plans: every method that must reach the native layer either takes
//! the call's outcome as an argument or returns the ordered sequence of
//! native calls the owner must now make. Teardown is the delicate part:
//! a subscription's native close must come before its context pointer is
//! reclaimed, and every subscription must be torn down before the
//! connection handle is closed.
use vstd::prelude::*;
use crate::channel::{channel, recv, send_logged, ChannelClosed, LoggedSender};
use crate::market::MarketEvent;
use crate::orders::Symbol;

verus! {

/// The identifier of one subscription within its connection: minted from a
/// counter, so ids are unique and strictly increasing in creation order.
#[derive(Debug, Clone, Copy, PartialEq, Eq, Hash, Structural)]
pub struct SubscriptionId(pub usize);

/// An error from the native market-data layer.
#[derive(Debug, Clone, Copy, PartialEq, Eq, Structural)]
pub enum DxFeedError {
    CreateConnectionError,
}

impl DxFeedError {
    /// The text a report of this error carries.
    pub fn message(&self) -> (r: &'static str)
        ensures
            r@ == "DxFeed error: CreateConnectionError"@,
    {
        "DxFeed error: CreateConnectionError"
    }
}

/// One native call the owner must make, in the order returned.
#[derive(Debug, Clone, Copy, PartialEq, Eq, Structural)]
pub enum NativeAction {
    CloseSubscription { handle: u64 },
    FreeContext { ctx: u64 },
    CloseConnection { handle: u64 },
}

/// Where a subscription stands in its life. `Pending`: registered, native
/// resources not yet attached. `Open`: the native subscription handle and
/// the context pointer the trampoline receives. `Closing`: the native
/// subscription is closed; the context is still to be reclaimed. `Freed`:
/// fully torn down. The only path is Pending, Open, Closing, Freed, so a
/// context is never reclaimed while its native subscription can still fire
/// the trampoline.
#[derive(Debug, Clone, Copy, PartialEq, Eq, Structural)]
pub enum SubState {
    Pending,
    Open { handle: u64, ctx: u64 },
    Closing { ctx: u64 },
    Freed,
}

/// The native calls that tear one subscription down from a given state:
/// close first, then free, never the reverse.
pub open spec fn close_acts(s: SubState) -> Seq<NativeAction> {
    match s {
        SubState::Open { handle, ctx } => seq![
            NativeAction::CloseSubscription { handle },
            NativeAction::FreeContext { ctx },
        ],
        SubState::Closing { ctx } => seq![NativeAction::FreeContext { ctx }],
        _ => Seq::empty(),
    }
}

/// The native subscription handle a lifecycle state still holds.
pub open spec fn native_handle(s: SubState) -> Option<u64> {
    match s {
        SubState::Open { handle, ctx } => Some(handle),
        _ => None,
    }
}

/// The context pointer a lifecycle state still holds.
pub open spec fn native_ctx(s: SubState) -> Option<u64> {
    match s {
        SubState::Open { handle, ctx } => Some(ctx),
        SubState::Closing { ctx } => Some(ctx),
        _ => None,
    }
}

/// The native call that subscribes a set of symbols, each in the vendor's
/// wide representation.
pub struct AddSymbolsCall {
    pub handle: u64,
    pub symbols: Vec<Vec<u32>>,
}

/// The vendor's wide representation of a symbol text: one 32-bit code
/// unit per character, without a terminator.
pub open spec fn wide_units(s: Seq<char>) -> Seq<u32> {
    Seq::new(s.len(), |i: int| s[i] as u32)
}

/// Whether the text holds a nul character anywhere. The native side reads
/// a symbol up to its first nul, so a symbol carrying one cannot cross
/// whole and is rejected rather than silently cut short.
fn contains_nul(s: &str) -> (r: bool)
    ensures
        r == s@.contains('\0'),
{
    let len = s.unicode_len();
    let mut i: usize = 0;
    while i < len
        invariant
            i <= len,
            len == s@.len(),
            forall|j: int| 0 <= j < i ==> s@[j] != '\0',
        decreases len - i,
    {
        if s.get_char(i) == '\0' {
            return true;
        }
        i = i + 1;
    }
    false
}

/// The wide code units of a nul-free symbol text; `None` where the text
/// holds a nul anywhere.
fn to_wide(s: &str) -> (r: Option<Vec<u32>>)
    ensures
        match r {
            Some(v) => v@ == wide_units(s@) && !s@.contains('\0'),
            None => s@.contains('\0'),
        },
{
    if contains_nul(s) {
        return None;
    }
    let len = s.unicode_len();
    let mut units: Vec<u32> = Vec::new();
    let mut i: usize = 0;
    while i < len
        invariant
            i <= len,
            len == s@.len(),
            units@.len() == i,
            forall|j: int| 0 <= j < i ==> units@[j] == s@[j] as u32,
        decreases len - i,
    {
        let c = s.get_char(i);
        units.push(c as u32);
        i = i + 1;
    }
    proof {
        assert(units@ =~= wide_units(s@));
    }
    Some(units)
}

/// One symbol-set subscription: its id, its native lifecycle, and the
/// receive end of its event channel. The matching send end is handed out
/// exactly once, to reach the trampoline as the boxed context.
pub struct QuoteSubscription {
    pub id: SubscriptionId,
    pub flags: i32,
    pub state: SubState,
    pub event_receiver: flume::Receiver<MarketEvent>,
    pub pending_sender: Option<LoggedSender<MarketEvent>>,
}

impl QuoteSubscription {
    /// Where this subscription stands in its native lifecycle.
    pub open spec fn lifecycle(self) -> SubState {
        self.state
    }

    /// Whether the send end of the event channel is still held here.
    pub open spec fn sender_available(self) -> bool {
        self.pending_sender is Some
    }

    /// Blocks until the trampoline delivers the next event, or reports the
    /// end of the stream.
    pub fn get_event(&self) -> Result<MarketEvent, ChannelClosed> {
        recv(&self.event_receiver)
    }

    /// First teardown step: plans the native close of an open
    /// subscription. A pending subscription has nothing native to close
    /// and goes straight to `Freed`.
    pub fn begin_close(&mut self) -> (a: Option<NativeAction>)
        ensures
            final(self).id == old(self).id,
            final(self).flags == old(self).flags,
            final(self).sender_available() == old(self).sender_available(),
            match old(self).lifecycle() {
                SubState::Open { handle, ctx } => {
                    &&& final(self).lifecycle() == (SubState::Closing { ctx })
                    &&& a == Some(NativeAction::CloseSubscription { handle })
                },
                SubState::Pending => {
                    &&& final(self).lifecycle() == SubState::Freed
                    &&& a is None
                },
                _ => {
                    &&& final(self).lifecycle() == old(self).lifecycle()
                    &&& a is None
                },
            },
    {
        match self.state {
            SubState::Open { handle, ctx } => {
                self.state = SubState::Closing { ctx };
                Some(NativeAction::CloseSubscription { handle })
            },
            SubState::Pending => {
                self.state = SubState::Freed;
                None
            },
            _ => None,
        }
    }

    /// Second teardown step: plans the reclaim of the context, and only
    /// once the native close is behind it — an open subscription is left
    /// untouched.
    pub fn finish_close(&mut self) -> (a: Option<NativeAction>)
        ensures
            final(self).id == old(self).id,
            final(self).flags == old(self).flags,
            final(self).sender_available() == old(self).sender_available(),
            match old(self).lifecycle() {
                SubState::Closing { ctx } => {
                    &&& final(self).lifecycle() == SubState::Freed
                    &&& a == Some(NativeAction::FreeContext { ctx })
                },
                _ => {
                    &&& final(self).lifecycle() == old(self).lifecycle()
                    &&& a is None
                },
            },
    {
        match self.state {
            SubState::Closing { ctx } => {
                self.state = SubState::Freed;
                Some(NativeAction::FreeContext { ctx })
            },
            _ => None,
        }
    }

    /// Tears this subscription down: the returned native calls, made in
    /// order, close the native subscription before its context is
    /// reclaimed.
    pub fn close(&mut self) -> (acts: Vec<NativeAction>)
        ensures
            final(self).id == old(self).id,
            final(self).flags == old(self).flags,
            final(self).sender_available() == old(self).sender_available(),
            final(self).lifecycle() == SubState::Freed,
            acts@ == close_acts(old(self).lifecycle()),
    {
        let mut acts: Vec<NativeAction> = Vec::new();
        if let Some(a) = self.begin_close() {
            acts.push(a);
        }
        if let Some(a) = self.finish_close() {
            acts.push(a);
        }
        proof {
            assert(acts@ =~= close_acts(old(self).lifecycle()));
        }
        acts
    }

    /// Plans the native call that subscribes `symbols`: each brokerage
    /// symbol in the vendor's wide representation, in the given order.
    /// There is a call exactly when the subscription is open and no symbol
    /// text holds an interior nul.
    pub fn add_symbols(&self, symbols: &Vec<Symbol>) -> (r: Option<AddSymbolsCall>)
        ensures
            match r {
                Some(call) => {
                    &&& self.lifecycle() matches SubState::Open { handle, ctx }
                        && call.handle == handle
                    &&& call.symbols@.len() == symbols@.len()
                    &&& forall|i: int|
                        0 <= i < symbols@.len() ==> call.symbols@[i]@ == wide_units(
                            symbols@[i].0@,
                        )
                    &&& forall|i: int| 0 <= i < symbols@.len() ==> !symbols@[i].0@.contains('\0')
                },
                None => self.lifecycle() !is Open || exists|i: int|
                    0 <= i < symbols@.len() && symbols@[i].0@.contains('\0'),
            },
    {
        let handle = match self.state {
            SubState::Open { handle, ctx: _ } => handle,
            _ => {
                return None;
            },
        };
        let mut wide: Vec<Vec<u32>> = Vec::new();
        let mut i: usize = 0;
        while i < symbols.len()
            invariant
                i <= symbols@.len(),
                wide@.len() == i,
                forall|j: int| 0 <= j < i ==> wide@[j]@ == wide_units(symbols@[j].0@),
                forall|j: int| 0 <= j < i ==> !symbols@[j].0@.contains('\0'),
            decreases symbols@.len() - i,
        {
            match to_wide(symbols[i].0.as_str()) {
                Some(w) => {
                    wide.push(w);
                },
                None => {
                    return None;
                },
            }
            i = i + 1;
        }
        Some(AddSymbolsCall { handle, symbols: wide })
    }
}

/// Forwards one decoded event into a subscription's channel. This is the
/// trampoline's hand-off: the channel is unbounded, so it never blocks,
/// and a failed hand-off (the subscription is gone) is dropped rather than
/// propagated, as nothing may unwind across the native boundary. One call
/// hands over exactly the given event, once: on success the sender's log
/// grows by it alone, on failure not at all.
pub fn deliver_event(tx: &mut LoggedSender<MarketEvent>, evt: MarketEvent) -> (delivered: bool)
    ensures
        final(tx).inner == old(tx).inner,
        delivered ==> final(tx).log@ == old(tx).log@.push(evt),
        !delivered ==> final(tx).log@ == old(tx).log@,
{
    match send_logged(tx, evt) {
        Ok(()) => true,
        Err(_) => false,
    }
}

/// The index of the subscription with the given id, if any.
pub open spec fn sub_index(subs: Seq<QuoteSubscription>, id: SubscriptionId) -> Option<int>
    decreases subs.len(),
{
    if subs.len() == 0 {
        None
    } else if subs[0].id == id {
        Some(0int)
    } else {
        match sub_index(subs.drop_first(), id) {
            Some(i) => Some(i + 1),
            None => None,
        }
    }
}

proof fn lemma_sub_index_absent(subs: Seq<QuoteSubscription>, id: SubscriptionId)
    requires
        forall|i: int| 0 <= i < subs.len() ==> subs[i].id != id,
    ensures
        sub_index(subs, id) is None,
    decreases subs.len(),
{
    if subs.len() > 0 {
        lemma_sub_index_absent(subs.drop_first(), id);
    }
}

proof fn lemma_sub_index_found(subs: Seq<QuoteSubscription>, id: SubscriptionId, k: int)
    requires
        0 <= k < subs.len(),
        subs[k].id == id,
        forall|i: int| 0 <= i < k ==> subs[i].id != id,
    ensures
        sub_index(subs, id) == Some(k),
    decreases k,
{
    if k > 0 {
        lemma_sub_index_found(subs.drop_first(), id, k - 1);
    }
}

/// The native teardown calls for a registry, torn down from the most
/// recent subscription back: for each subscription, its close then its
/// free, block after block.
pub open spec fn teardown_acts(subs: Seq<QuoteSubscription>) -> Seq<NativeAction>
    decreases subs.len(),
{
    if subs.len() == 0 {
        Seq::empty()
    } else {
        close_acts(subs.last().lifecycle()) + teardown_acts(subs.drop_last())
    }
}

proof fn lemma_teardown_acts_no_close_connection(subs: Seq<QuoteSubscription>, i: int)
    requires
        0 <= i < teardown_acts(subs).len(),
    ensures
        !(teardown_acts(subs)[i] is CloseConnection),
    decreases subs.len(),
{
    if subs.len() > 0 {
        let head = close_acts(subs.last().lifecycle());
        if i >= head.len() {
            lemma_teardown_acts_no_close_connection(subs.drop_last(), i - head.len());
        }
    }
}

proof fn lemma_teardown_acts_pair(subs: Seq<QuoteSubscription>, k: int, h: u64, c: u64)
    requires
        0 <= k < subs.len(),
        subs[k].lifecycle() == (SubState::Open { handle: h, ctx: c }),
    ensures
        exists|i: int, j: int|
            {
                &&& 0 <= i < j < teardown_acts(subs).len()
                &&& teardown_acts(subs)[i] == (NativeAction::CloseSubscription { handle: h })
                &&& teardown_acts(subs)[j] == (NativeAction::FreeContext { ctx: c })
            },
    decreases subs.len(),
{
    let acts = teardown_acts(subs);
    let head = close_acts(subs.last().lifecycle());
    if k == subs.len() - 1 {
        assert(acts[0] == (NativeAction::CloseSubscription { handle: h }));
        assert(acts[1] == (NativeAction::FreeContext { ctx: c }));
    } else {
        lemma_teardown_acts_pair(subs.drop_last(), k, h, c);
        let (i0, j0) = choose|i0: int, j0: int|
            {
                &&& 0 <= i0 < j0 < teardown_acts(subs.drop_last()).len()
                &&& teardown_acts(subs.drop_last())[i0] == (NativeAction::CloseSubscription {
                    handle: h,
                })
                &&& teardown_acts(subs.drop_last())[j0] == (NativeAction::FreeContext { ctx: c })
            };
        assert(acts[head.len() + i0] == (NativeAction::CloseSubscription { handle: h }));
        assert(acts[head.len() + j0] == (NativeAction::FreeContext { ctx: c }));
    }
}

/// Law: in the action sequence of a full teardown, the connection close is
/// the last action and the only one that touches the connection, and each
/// open subscription's native close comes strictly before the reclaim of
/// its context — so before the connection close as well.
pub proof fn lemma_teardown_ordering(
    subs: Seq<QuoteSubscription>,
    conn: u64,
    k: int,
    h: u64,
    c: u64,
)
    requires
        0 <= k < subs.len(),
        subs[k].lifecycle() == (SubState::Open { handle: h, ctx: c }),
    ensures
        ({
            let acts = teardown_acts(subs) + seq![NativeAction::CloseConnection { handle: conn }];
            &&& acts.last() == (NativeAction::CloseConnection { handle: conn })
            &&& forall|i: int| 0 <= i < acts.len() - 1 ==> !(acts[i] is CloseConnection)
            &&& exists|i: int, j: int|
                {
                    &&& 0 <= i < j < acts.len() - 1
                    &&& acts[i] == (NativeAction::CloseSubscription { handle: h })
                    &&& acts[j] == (NativeAction::FreeContext { ctx: c })
                }
        }),
{
    let acts = teardown_acts(subs) + seq![NativeAction::CloseConnection { handle: conn }];
    assert forall|i: int| 0 <= i < acts.len() - 1 implies !(acts[i] is CloseConnection) by {
        lemma_teardown_acts_no_close_connection(subs, i);
    }
    lemma_teardown_acts_pair(subs, k, h, c);
    let (i0, j0) = choose|i0: int, j0: int|
        {
            &&& 0 <= i0 < j0 < teardown_acts(subs).len()
            &&& teardown_acts(subs)[i0] == (NativeAction::CloseSubscription { handle: h })
            &&& teardown_acts(subs)[j0] == (NativeAction::FreeContext { ctx: c })
        };
    assert(acts[i0] == (NativeAction::CloseSubscription { handle: h }));
    assert(acts[j0] == (NativeAction::FreeContext { ctx: c }));
}

/// One native market-data session: the native connection handle and the
/// registry of live subscriptions, keyed by strictly increasing ids.
pub struct QuoteStreamer {
    pub host: String,
    pub token: String,
    pub conn_handle: Option<u64>,
    pub subscriptions: Vec<QuoteSubscription>,
    pub next_sub_id: usize,
}

impl QuoteStreamer {
    /// The registry, in creation order.
    pub open spec fn subs(self) -> Seq<QuoteSubscription> {
        self.subscriptions@
    }

    /// The native connection handle, while the connection is open.
    pub open spec fn connection(self) -> Option<u64> {
        self.conn_handle
    }

    /// The id the next subscription will get.
    pub open spec fn fresh_id(self) -> usize {
        self.next_sub_id
    }

    /// Registry ids are strictly increasing in creation order and all
    /// below the counter; the native handles and context pointers still
    /// held are pairwise distinct, so teardown closes and frees each
    /// exactly once.
    pub open spec fn wf(self) -> bool {
        &&& forall|i: int, j: int|
            0 <= i < j < self.subs().len() ==> self.subs()[i].id.0 < self.subs()[j].id.0
        &&& forall|i: int| 0 <= i < self.subs().len() ==> self.subs()[i].id.0 < self.fresh_id()
        &&& forall|i: int, j: int|
            0 <= i < j < self.subs().len() ==> ({
                &&& (native_handle(self.subs()[i].lifecycle()) is Some ==> native_handle(
                    self.subs()[i].lifecycle(),
                ) != native_handle(self.subs()[j].lifecycle()))
                &&& (native_ctx(self.subs()[i].lifecycle()) is Some ==> native_ctx(
                    self.subs()[i].lifecycle(),
                ) != native_ctx(self.subs()[j].lifecycle()))
            })
    }

    /// Builds the session around the outcome of the native "create
    /// authenticated connection" call the owner just made: a non-success
    /// outcome is fatal for construction.
    pub fn connect(host: String, token: String, native: Result<u64, i32>) -> (r: Result<
        QuoteStreamer,
        DxFeedError,
    >)
        ensures
            match r {
                Ok(s) => {
                    &&& native matches Ok(h) && s.connection() == Some(h)
                    &&& s.host@ == host@
                    &&& s.token@ == token@
                    &&& s.subs().len() == 0
                    &&& s.fresh_id() == 0
                    &&& s.wf()
                },
                Err(e) => native is Err && e == DxFeedError::CreateConnectionError,
            },
    {
        match native {
            Ok(h) => Ok(
                QuoteStreamer {
                    host,
                    token,
                    conn_handle: Some(h),
                    subscriptions: Vec::new(),
                    next_sub_id: 0,
                },
            ),
            Err(_) => Err(DxFeedError::CreateConnectionError),
        }
    }

    /// Registers a new subscription under a fresh id, greater than every
    /// id this session has handed out. Its event channel is created here;
    /// the send end waits to be taken for the trampoline.
    pub fn create_sub(&mut self, flags: i32) -> (id: SubscriptionId)
        requires
            old(self).wf(),
            old(self).fresh_id() < usize::MAX,
        ensures
            final(self).wf(),
            id.0 == old(self).fresh_id(),
            final(self).fresh_id() == old(self).fresh_id() + 1,
            final(self).host@ == old(self).host@,
            final(self).token@ == old(self).token@,
            final(self).connection() == old(self).connection(),
            final(self).subs().len() == old(self).subs().len() + 1,
            forall|i: int|
                0 <= i < old(self).subs().len() ==> final(self).subs()[i] == old(self).subs()[i],
            final(self).subs().last().id == id,
            final(self).subs().last().flags == flags,
            final(self).subs().last().lifecycle() == SubState::Pending,
            final(self).subs().last().sender_available(),
            forall|i: int| 0 <= i < old(self).subs().len() ==> old(self).subs()[i].id.0 < id.0,
    {
        let id = SubscriptionId(self.next_sub_id);
        self.next_sub_id = self.next_sub_id + 1;
        let (tx, rx) = channel::<MarketEvent>();
        let sub = QuoteSubscription {
            id,
            flags,
            state: SubState::Pending,
            event_receiver: rx,
            pending_sender: Some(LoggedSender::new(tx)),
        };
        self.subscriptions.push(sub);
        id
    }

    /// The subscription registered under `id`, if it is still registered.
    pub fn get_sub<'a>(&'a self, id: SubscriptionId) -> (r: Option<&'a QuoteSubscription>)
        ensures
            match r {
                Some(s) => {
                    &&& sub_index(self.subs(), id) matches Some(k)
                    &&& 0 <= k < self.subs().len()
                    &&& *s == self.subs()[sub_index(self.subs(), id)->Some_0]
                    &&& s.id == id
                },
                None => sub_index(self.subs(), id) is None,
            },
    {
        proof {
            assert(self.subs().skip(0) =~= self.subs());
        }
        let mut i: usize = 0;
        while i < self.subscriptions.len()
            invariant
                i <= self.subs().len(),
                sub_index(self.subs(), id) == match sub_index(self.subs().skip(i as int), id) {
                    Some(k) => Some(k + i),
                    None => None,
                },
            decreases self.subs().len() - i,
        {
            if self.subscriptions[i].id.0 == id.0 {
                proof {
                    assert(self.subs().skip(i as int)[0] == self.subs()[i as int]);
                }
                return Some(&self.subscriptions[i]);
            }
            proof {
                assert(self.subs().skip(i as int).drop_first() =~= self.subs().skip(i as int + 1));
            }
            i = i + 1;
        }
        None
    }

    fn find_index(&self, id: SubscriptionId) -> (r: Option<usize>)
        ensures
            match r {
                Some(k) => sub_index(self.subs(), id) == Some(k as int) && k < self.subs().len()
                    && self.subs()[k as int].id == id,
                None => sub_index(self.subs(), id) is None,
            },
    {
        proof {
            assert(self.subs().skip(0) =~= self.subs());
        }
        let mut i: usize = 0;
        while i < self.subscriptions.len()
            invariant
                i <= self.subs().len(),
                sub_index(self.subs(), id) == match sub_index(self.subs().skip(i as int), id) {
                    Some(k) => Some(k + i),
                    None => None,
                },
            decreases self.subs().len() - i,
        {
            if self.subscriptions[i].id.0 == id.0 {
                proof {
                    assert(self.subs().skip(i as int)[0] == self.subs()[i as int]);
                }
                return Some(i);
            }
            proof {
                assert(self.subs().skip(i as int).drop_first() =~= self.subs().skip(i as int + 1));
            }
            i = i + 1;
        }
        None
    }

    /// Hands out the send end of a subscription's event channel. It leaves
    /// at most once: the one live send end is the one the trampoline gets.
    pub fn take_sender(&mut self, id: SubscriptionId) -> (r: Option<LoggedSender<MarketEvent>>)
        requires
            old(self).wf(),
        ensures
            final(self).wf(),
            final(self).host@ == old(self).host@,
            final(self).token@ == old(self).token@,
            final(self).connection() == old(self).connection(),
            final(self).fresh_id() == old(self).fresh_id(),
            match r {
                Some(s) => {
                    &&& sub_index(old(self).subs(), id) matches Some(k)
                    &&& old(self).subs()[sub_index(old(self).subs(), id)->Some_0].sender_available()
                    &&& Some(s) == old(self).subs()[sub_index(
                        old(self).subs(),
                        id,
                    )->Some_0].pending_sender
                    &&& final(self).subs() == old(self).subs().update(
                        sub_index(old(self).subs(), id)->Some_0,
                        final(self).subs()[sub_index(old(self).subs(), id)->Some_0],
                    )
                    &&& !final(self).subs()[sub_index(old(self).subs(), id)->Some_0]
                        .sender_available()
                    &&& final(self).subs()[sub_index(old(self).subs(), id)->Some_0].id
                        == old(self).subs()[sub_index(old(self).subs(), id)->Some_0].id
                    &&& final(self).subs()[sub_index(old(self).subs(), id)->Some_0].lifecycle()
                        == old(self).subs()[sub_index(old(self).subs(), id)->Some_0].lifecycle()
                },
                None => {
                    &&& final(self).subs() == old(self).subs()
                    &&& sub_index(old(self).subs(), id) matches Some(k) ==> !old(self).subs()[k]
                        .sender_available()
                },
            },
    {
        let k = match self.find_index(id) {
            Some(k) => k,
            None => {
                return None;
            },
        };
        let mut sub = self.subscriptions.remove(k);
        let taken = match sub.pending_sender {
            Some(tx) => {
                sub.pending_sender = None;
                Some(tx)
            },
            None => None,
        };
        match taken {
            Some(tx) => {
                self.subscriptions.insert(k, sub);
                proof {
                    assert(self.subs() =~= old(self).subs().update(k as int, self.subs()[k as int]));
                }
                Some(tx)
            },
            None => {
                self.subscriptions.insert(k, sub);
                proof {
                    assert(self.subs() =~= old(self).subs());
                }
                None
            },
        }
    }

    /// Records the outcome of the native "create subscription" and "attach
    /// event listener" calls: the pending subscription under `id` becomes
    /// open, owning that handle and context. A handle or context another
    /// subscription still holds is refused, so each native resource has
    /// one owner.
    pub fn attach_native(&mut self, id: SubscriptionId, handle: u64, ctx: u64) -> (ok: bool)
        requires
            old(self).wf(),
        ensures
            final(self).wf(),
            final(self).host@ == old(self).host@,
            final(self).token@ == old(self).token@,
            final(self).connection() == old(self).connection(),
            final(self).fresh_id() == old(self).fresh_id(),
            ok == (sub_index(old(self).subs(), id) matches Some(k) && old(self).subs()[k]
                .lifecycle() is Pending && (forall|i: int|
                0 <= i < old(self).subs().len() && i != k ==> native_handle(
                    old(self).subs()[i].lifecycle(),
                ) != Some(handle) && native_ctx(old(self).subs()[i].lifecycle()) != Some(ctx))),
            ok ==> {
                &&& sub_index(old(self).subs(), id) matches Some(k)
                &&& final(self).subs() == old(self).subs().update(
                    sub_index(old(self).subs(), id)->Some_0,
                    final(self).subs()[sub_index(old(self).subs(), id)->Some_0],
                )
                &&& final(self).subs()[sub_index(old(self).subs(), id)->Some_0].lifecycle() == (
                SubState::Open { handle, ctx })
                &&& final(self).subs()[sub_index(old(self).subs(), id)->Some_0].id == id
                &&& final(self).subs()[sub_index(old(self).subs(), id)->Some_0].sender_available()
                    == old(self).subs()[sub_index(old(self).subs(), id)->Some_0].sender_available()
            },
            !ok ==> final(self).subs() == old(self).subs(),
    {
        let k = match self.find_index(id) {
            Some(k) => k,
            None => {
                return false;
            },
        };
        match self.subscriptions[k].state {
            SubState::Pending => (),
            _ => {
                return false;
            },
        }
        let mut i: usize = 0;
        while i < self.subscriptions.len()
            invariant
                *self == *old(self),
                i <= self.subs().len(),
                k < self.subs().len(),
                old(self).wf(),
                sub_index(old(self).subs(), id) == Some(k as int),
                old(self).subs()[k as int].lifecycle() is Pending,
                forall|j: int|
                    0 <= j < i && j != k ==> native_handle(self.subs()[j].lifecycle()) != Some(
                        handle,
                    ) && native_ctx(self.subs()[j].lifecycle()) != Some(ctx),
            decreases self.subs().len() - i,
        {
            if i != k {
                match self.subscriptions[i].state {
                    SubState::Open { handle: h2, ctx: c2 } => {
                        if h2 == handle || c2 == ctx {
                            return false;
                        }
                    },
                    SubState::Closing { ctx: c2 } => {
                        if c2 == ctx {
                            return false;
                        }
                    },
                    _ => (),
                }
            }
            i = i + 1;
        }
        let mut sub = self.subscriptions.remove(k);
        sub.state = SubState::Open { handle, ctx };
        self.subscriptions.insert(k, sub);
        proof {
            assert(self.subs() =~= old(self).subs().update(k as int, self.subs()[k as int]));
            assert forall|a: int, b: int| 0 <= a < b < self.subs().len() implies ({
                &&& (native_handle(self.subs()[a].lifecycle()) is Some ==> native_handle(
                    self.subs()[a].lifecycle(),
                ) != native_handle(self.subs()[b].lifecycle()))
                &&& (native_ctx(self.subs()[a].lifecycle()) is Some ==> native_ctx(
                    self.subs()[a].lifecycle(),
                ) != native_ctx(self.subs()[b].lifecycle()))
            }) by {
                assert(a != k as int ==> self.subs()[a] == old(self).subs()[a]);
                assert(b != k as int ==> self.subs()[b] == old(self).subs()[b]);
            }
        }
        true
    }

    /// Removes and tears down the subscription under `id`. The returned
    /// native calls, made in order, close before they free; afterwards the
    /// id is no longer registered.
    pub fn close_sub(&mut self, id: SubscriptionId) -> (r: Option<Vec<NativeAction>>)
        requires
            old(self).wf(),
        ensures
            final(self).wf(),
            final(self).host@ == old(self).host@,
            final(self).token@ == old(self).token@,
            final(self).connection() == old(self).connection(),
            final(self).fresh_id() == old(self).fresh_id(),
            match r {
                Some(acts) => {
                    &&& sub_index(old(self).subs(), id) matches Some(k)
                    &&& final(self).subs() == old(self).subs().remove(
                        sub_index(old(self).subs(), id)->Some_0,
                    )
                    &&& acts@ == close_acts(
                        old(self).subs()[sub_index(old(self).subs(), id)->Some_0].lifecycle(),
                    )
                    &&& sub_index(final(self).subs(), id) is None
                },
                None => final(self).subs() == old(self).subs() && sub_index(old(self).subs(), id)
                    is None,
            },
    {
        let k = match self.find_index(id) {
            Some(k) => k,
            None => {
                return None;
            },
        };
        let mut sub = self.subscriptions.remove(k);
        let acts = sub.close();
        proof {
            assert(self.subs() =~= old(self).subs().remove(k as int));
            assert forall|i: int| 0 <= i < self.subs().len() implies self.subs()[i].id != id by {
                if i < k {
                    assert(self.subs()[i] == old(self).subs()[i]);
                    assert(old(self).subs()[i].id.0 < old(self).subs()[k as int].id.0);
                } else {
                    assert(self.subs()[i] == old(self).subs()[i + 1]);
                    assert(old(self).subs()[k as int].id.0 < old(self).subs()[i + 1].id.0);
                }
            }
            lemma_sub_index_absent(self.subs(), id);
        }
        Some(acts)
    }

    /// Tears the whole session down: every subscription, most recent
    /// first, each closing its native handle before freeing its context;
    /// then, last of all, the native connection close. Afterwards the
    /// registry is empty and the connection handle is gone.
    pub fn teardown(&mut self) -> (acts: Vec<NativeAction>)
        requires
            old(self).wf(),
        ensures
            final(self).wf(),
            final(self).host@ == old(self).host@,
            final(self).token@ == old(self).token@,
            final(self).subs().len() == 0,
            final(self).connection() is None,
            final(self).fresh_id() == old(self).fresh_id(),
            acts@ == teardown_acts(old(self).subs()) + (match old(self).connection() {
                Some(h) => seq![NativeAction::CloseConnection { handle: h }],
                None => Seq::<NativeAction>::empty(),
            }),
    {
        let ghost subs0 = old(self).subs();
        let mut acts: Vec<NativeAction> = Vec::new();
        proof {
            assert(subs0.take(subs0.len() as int) =~= subs0);
        }
        while self.subscriptions.len() > 0
            invariant
                self.subscriptions@ == subs0.take(self.subscriptions@.len() as int),
                self.subscriptions@.len() <= subs0.len(),
                teardown_acts(subs0) == acts@ + teardown_acts(self.subscriptions@),
                self.conn_handle == old(self).connection(),
                self.host@ == old(self).host@,
                self.token@ == old(self).token@,
                self.next_sub_id == old(self).fresh_id(),
            decreases self.subscriptions@.len(),
        {
            let ghost before = self.subscriptions@;
            let last = self.subscriptions.len() - 1;
            let mut sub = self.subscriptions.remove(last);
            let mut a = sub.close();
            acts.append(&mut a);
            proof {
                assert(before.drop_last() =~= subs0.take(self.subscriptions@.len() as int));
                assert(teardown_acts(before) == close_acts(before.last().lifecycle())
                    + teardown_acts(before.drop_last()));
            }
        }
        match self.conn_handle {
            Some(h) => {
                acts.push(NativeAction::CloseConnection { handle: h });
                self.conn_handle = None;
            },
            None => (),
        }
        proof {
            assert(teardown_acts(self.subscriptions@) =~= Seq::<NativeAction>::empty());
            assert(acts@ =~= teardown_acts(subs0) + (match old(self).connection() {
                Some(h) => seq![NativeAction::CloseConnection { handle: h }],
                None => Seq::<NativeAction>::empty(),
            }));
        }
        acts
    }
}

/// Law: within one session, ids are unique and strictly increasing —
/// registry order is creation order, and a subscription created before
/// another has the strictly smaller id.
pub proof fn lemma_ids_strictly_increasing(s: QuoteStreamer, i: int, j: int)
    requires
        s.wf(),
        0 <= i < j < s.subs().len(),
    ensures
        s.subs()[i].id.0 < s.subs()[j].id.0,
        s.subs()[i].id != s.subs()[j].id,
{
}

} // verus!
