//! Market-data events as the bridge forwards them. The native SDK reports
//! prices as IEEE doubles; the core routes them without computing on them,
//! so they cross as raw bit patterns.
use vstd::prelude::*;

verus! {

/// One quote tick for one symbol. `*_price_bits` hold `f64::to_bits` of the
/// native price fields.
#[derive(Debug, Clone, PartialEq, Eq)]
pub struct QuoteEvent {
    pub symbol: String,
    pub bid_price_bits: u64,
    pub ask_price_bits: u64,
}

/// Mathematical view of a `QuoteEvent`.
pub struct QuoteEventView {
    pub symbol: Seq<char>,
    pub bid_price_bits: u64,
    pub ask_price_bits: u64,
}

impl View for QuoteEvent {
    type V = QuoteEventView;

    open spec fn view(&self) -> QuoteEventView {
        QuoteEventView {
            symbol: self.symbol@,
            bid_price_bits: self.bid_price_bits,
            ask_price_bits: self.ask_price_bits,
        }
    }
}

/// One event delivered by the native feed: a decoded quote, or any other
/// native event kind, forwarded by its type code without further decoding.
#[derive(Debug, Clone, PartialEq, Eq)]
pub enum MarketEvent {
    Quote(QuoteEvent),
    Other { event_type: i32 },
}

/// Mathematical view of a `MarketEvent`.
pub enum MarketEventView {
    Quote(QuoteEventView),
    Other { event_type: i32 },
}

impl View for MarketEvent {
    type V = MarketEventView;

    open spec fn view(&self) -> MarketEventView {
        match self {
            MarketEvent::Quote(q) => MarketEventView::Quote(q@),
            MarketEvent::Other { event_type } => MarketEventView::Other {
                event_type: *event_type,
            },
        }
    }
}

} // verus!
