//! Instrument metadata at the feed's boundary: the vendor symbol space and
//! the one translation the feed depends on. The brokerage's textual symbol
//! and the vendor's market-data symbol are disjoint namespaces; equities
//! mostly coincide, options never do, so each instrument type has its own
//! lookup endpoint and every other type fails fast.
use vstd::prelude::*;
use crate::orders::{AsSymbol, InstrumentType, Symbol};

verus! {

/// A symbol in the vendor's market-data namespace.
#[derive(Debug, Clone, PartialEq, Eq, PartialOrd, Ord, Hash)]
pub struct DxFeedSymbol(pub String);

impl AsSymbol for DxFeedSymbol {
    fn as_symbol(&self) -> (r: Symbol)
        ensures
            r.0@ == self.0@,
    {
        Symbol(String::from_str(self.0.as_str()))
    }
}

/// What the equity-instrument endpoint reports: the brokerage symbol and
/// its vendor symbol.
#[derive(Debug, Clone)]
pub struct EquityInstrumentInfo {
    pub symbol: Symbol,
    pub streamer_symbol: DxFeedSymbol,
}

/// What the option-instrument endpoint reports.
#[derive(Debug, Clone)]
pub struct OptionInfo {
    pub streamer_symbol: DxFeedSymbol,
}

/// The bootstrap the feed connection needs, as the quote-streamer-tokens
/// endpoint reports it.
#[derive(Debug, Clone)]
pub struct QuoteStreamerTokens {
    pub token: String,
    pub streamer_url: String,
    pub websocket_url: String,
    pub level: String,
}

/// Which metadata endpoint translates a symbol of this instrument type.
#[derive(Debug, Clone, Copy, PartialEq, Eq, Structural)]
pub enum SymbolLookup {
    EquityInfo,
    OptionInfo,
}

/// An instrument type the symbol translation does not support.
#[derive(Debug, Clone, Copy, PartialEq, Eq, Structural)]
pub struct UnsupportedInstrumentType;

/// How a brokerage symbol reaches the vendor's namespace: equities go
/// through the equity-instrument endpoint, equity options through the
/// option-instrument endpoint, and every other instrument type is
/// unsupported and fails fast.
pub fn streamer_symbol_lookup(instrument_type: &InstrumentType) -> (r: Result<
    SymbolLookup,
    UnsupportedInstrumentType,
>)
    ensures
        r == match instrument_type {
            InstrumentType::Equity => Ok::<SymbolLookup, UnsupportedInstrumentType>(
                SymbolLookup::EquityInfo,
            ),
            InstrumentType::EquityOption => Ok::<SymbolLookup, UnsupportedInstrumentType>(
                SymbolLookup::OptionInfo,
            ),
            _ => Err::<SymbolLookup, UnsupportedInstrumentType>(UnsupportedInstrumentType),
        },
{
    match instrument_type {
        InstrumentType::Equity => Ok(SymbolLookup::EquityInfo),
        InstrumentType::EquityOption => Ok(SymbolLookup::OptionInfo),
        _ => Err(UnsupportedInstrumentType),
    }
}

/// The path of the equity-instrument endpoint for one symbol.
pub fn equity_info_path(symbol: &Symbol) -> (r: String)
    ensures
        r@ == "/instruments/equities/"@ + symbol.0@,
{
    let mut s = String::from_str("/instruments/equities/");
    s.append(symbol.0.as_str());
    s
}

/// The path of the option-instrument endpoint for one symbol.
pub fn option_info_path(symbol: &Symbol) -> (r: String)
    ensures
        r@ == "/instruments/equity-options/"@ + symbol.0@,
{
    let mut s = String::from_str("/instruments/equity-options/");
    s.append(symbol.0.as_str());
    s
}

/// The path of the quote-streamer-tokens endpoint.
pub fn quote_streamer_tokens_path() -> (r: &'static str)
    ensures
        r@ == "/quote-streamer-tokens"@,
{
    "/quote-streamer-tokens"
}

} // verus!
