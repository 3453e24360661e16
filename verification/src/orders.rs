//! Order taxonomy: the enumerations and records carried by order events on
//! the account stream, with their wire names.
use vstd::prelude::*;
use crate::accounts::AccountNumber;
use crate::json::str_eq;

verus! {

/// Whether an amount is charged or credited.
#[derive(Debug, Clone, Copy, PartialEq, Eq, Structural)]
pub enum PriceEffect {
    Debit,
    Credit,
    NoEffect,
}

impl PriceEffect {
    /// The name this variant carries on the wire.
    pub open spec fn wire(self) -> Seq<char> {
        match self {
            PriceEffect::Debit => "Debit"@,
            PriceEffect::Credit => "Credit"@,
            PriceEffect::NoEffect => "None"@,
        }
    }

    /// The variant a wire name denotes.
    pub open spec fn from_wire(s: Seq<char>) -> Option<PriceEffect> {
        if s == "Debit"@ {
            Some(PriceEffect::Debit)
        } else if s == "Credit"@ {
            Some(PriceEffect::Credit)
        } else if s == "None"@ {
            Some(PriceEffect::NoEffect)
        } else {
            None
        }
    }

    pub fn wire_name(&self) -> (r: &'static str)
        ensures
            r@ == self.wire(),
    {
        match self {
            PriceEffect::Debit => "Debit",
            PriceEffect::Credit => "Credit",
            PriceEffect::NoEffect => "None",
        }
    }

    pub fn parse_wire(s: &str) -> (r: Option<PriceEffect>)
        ensures
            r == Self::from_wire(s@),
    {
        if str_eq(s, "Debit") {
            Some(PriceEffect::Debit)
        } else if str_eq(s, "Credit") {
            Some(PriceEffect::Credit)
        } else if str_eq(s, "None") {
            Some(PriceEffect::NoEffect)
        } else {
            None
        }
    }
}

/// The side and intent of one order leg.
#[derive(Debug, Clone, Copy, PartialEq, Eq, Structural)]
pub enum Action {
    BuyToOpen,
    SellToOpen,
    BuyToClose,
    SellToClose,
    Sell,
    Buy,
}

impl Action {
    pub open spec fn wire(self) -> Seq<char> {
        match self {
            Action::BuyToOpen => "Buy to Open"@,
            Action::SellToOpen => "Sell to Open"@,
            Action::BuyToClose => "Buy to Close"@,
            Action::SellToClose => "Sell to Close"@,
            Action::Sell => "Sell"@,
            Action::Buy => "Buy"@,
        }
    }

    pub open spec fn from_wire(s: Seq<char>) -> Option<Action> {
        if s == "Buy to Open"@ {
            Some(Action::BuyToOpen)
        } else if s == "Sell to Open"@ {
            Some(Action::SellToOpen)
        } else if s == "Buy to Close"@ {
            Some(Action::BuyToClose)
        } else if s == "Sell to Close"@ {
            Some(Action::SellToClose)
        } else if s == "Sell"@ {
            Some(Action::Sell)
        } else if s == "Buy"@ {
            Some(Action::Buy)
        } else {
            None
        }
    }

    pub fn wire_name(&self) -> (r: &'static str)
        ensures
            r@ == self.wire(),
    {
        match self {
            Action::BuyToOpen => "Buy to Open",
            Action::SellToOpen => "Sell to Open",
            Action::BuyToClose => "Buy to Close",
            Action::SellToClose => "Sell to Close",
            Action::Sell => "Sell",
            Action::Buy => "Buy",
        }
    }

    pub fn parse_wire(s: &str) -> (r: Option<Action>)
        ensures
            r == Self::from_wire(s@),
    {
        if str_eq(s, "Buy to Open") {
            Some(Action::BuyToOpen)
        } else if str_eq(s, "Sell to Open") {
            Some(Action::SellToOpen)
        } else if str_eq(s, "Buy to Close") {
            Some(Action::BuyToClose)
        } else if str_eq(s, "Sell to Close") {
            Some(Action::SellToClose)
        } else if str_eq(s, "Sell") {
            Some(Action::Sell)
        } else if str_eq(s, "Buy") {
            Some(Action::Buy)
        } else {
            None
        }
    }
}

/// The kind of instrument a symbol denotes.
#[derive(Debug, Clone, Copy, PartialEq, Eq, Structural)]
pub enum InstrumentType {
    Equity,
    EquityOption,
    EquityOffering,
    Future,
    FutureOption,
    Cryptocurrency,
}

impl InstrumentType {
    pub open spec fn wire(self) -> Seq<char> {
        match self {
            InstrumentType::Equity => "Equity"@,
            InstrumentType::EquityOption => "Equity Option"@,
            InstrumentType::EquityOffering => "Equity Offering"@,
            InstrumentType::Future => "Future"@,
            InstrumentType::FutureOption => "Future Option"@,
            InstrumentType::Cryptocurrency => "Cryptocurrency"@,
        }
    }

    pub open spec fn from_wire(s: Seq<char>) -> Option<InstrumentType> {
        if s == "Equity"@ {
            Some(InstrumentType::Equity)
        } else if s == "Equity Option"@ {
            Some(InstrumentType::EquityOption)
        } else if s == "Equity Offering"@ {
            Some(InstrumentType::EquityOffering)
        } else if s == "Future"@ {
            Some(InstrumentType::Future)
        } else if s == "Future Option"@ {
            Some(InstrumentType::FutureOption)
        } else if s == "Cryptocurrency"@ {
            Some(InstrumentType::Cryptocurrency)
        } else {
            None
        }
    }

    pub fn wire_name(&self) -> (r: &'static str)
        ensures
            r@ == self.wire(),
    {
        match self {
            InstrumentType::Equity => "Equity",
            InstrumentType::EquityOption => "Equity Option",
            InstrumentType::EquityOffering => "Equity Offering",
            InstrumentType::Future => "Future",
            InstrumentType::FutureOption => "Future Option",
            InstrumentType::Cryptocurrency => "Cryptocurrency",
        }
    }

    pub fn parse_wire(s: &str) -> (r: Option<InstrumentType>)
        ensures
            r == Self::from_wire(s@),
    {
        if str_eq(s, "Equity") {
            Some(InstrumentType::Equity)
        } else if str_eq(s, "Equity Option") {
            Some(InstrumentType::EquityOption)
        } else if str_eq(s, "Equity Offering") {
            Some(InstrumentType::EquityOffering)
        } else if str_eq(s, "Future") {
            Some(InstrumentType::Future)
        } else if str_eq(s, "Future Option") {
            Some(InstrumentType::FutureOption)
        } else if str_eq(s, "Cryptocurrency") {
            Some(InstrumentType::Cryptocurrency)
        } else {
            None
        }
    }
}

/// How an order is priced.
#[derive(Debug, Clone, Copy, PartialEq, Eq, Structural)]
pub enum OrderType {
    Limit,
    Market,
    MarketableLimit,
    Stop,
    StopLimit,
    NotionalMarket,
}

impl OrderType {
    pub open spec fn wire(self) -> Seq<char> {
        match self {
            OrderType::Limit => "Limit"@,
            OrderType::Market => "Market"@,
            OrderType::MarketableLimit => "Marketable Limit"@,
            OrderType::Stop => "Stop"@,
            OrderType::StopLimit => "Stop Limit"@,
            OrderType::NotionalMarket => "Notional Market"@,
        }
    }

    pub open spec fn from_wire(s: Seq<char>) -> Option<OrderType> {
        if s == "Limit"@ {
            Some(OrderType::Limit)
        } else if s == "Market"@ {
            Some(OrderType::Market)
        } else if s == "Marketable Limit"@ {
            Some(OrderType::MarketableLimit)
        } else if s == "Stop"@ {
            Some(OrderType::Stop)
        } else if s == "Stop Limit"@ {
            Some(OrderType::StopLimit)
        } else if s == "Notional Market"@ {
            Some(OrderType::NotionalMarket)
        } else {
            None
        }
    }

    pub fn wire_name(&self) -> (r: &'static str)
        ensures
            r@ == self.wire(),
    {
        match self {
            OrderType::Limit => "Limit",
            OrderType::Market => "Market",
            OrderType::MarketableLimit => "Marketable Limit",
            OrderType::Stop => "Stop",
            OrderType::StopLimit => "Stop Limit",
            OrderType::NotionalMarket => "Notional Market",
        }
    }

    pub fn parse_wire(s: &str) -> (r: Option<OrderType>)
        ensures
            r == Self::from_wire(s@),
    {
        if str_eq(s, "Limit") {
            Some(OrderType::Limit)
        } else if str_eq(s, "Market") {
            Some(OrderType::Market)
        } else if str_eq(s, "Marketable Limit") {
            Some(OrderType::MarketableLimit)
        } else if str_eq(s, "Stop") {
            Some(OrderType::Stop)
        } else if str_eq(s, "Stop Limit") {
            Some(OrderType::StopLimit)
        } else if str_eq(s, "Notional Market") {
            Some(OrderType::NotionalMarket)
        } else {
            None
        }
    }
}

/// How long an order stays working.
#[derive(Debug, Clone, Copy, PartialEq, Eq, Structural)]
pub enum TimeInForce {
    Day,
    GTC,
    GTD,
    Ext,
    GTCExt,
    IOC,
}

impl TimeInForce {
    pub open spec fn wire(self) -> Seq<char> {
        match self {
            TimeInForce::Day => "Day"@,
            TimeInForce::GTC => "GTC"@,
            TimeInForce::GTD => "GTD"@,
            TimeInForce::Ext => "Ext"@,
            TimeInForce::GTCExt => "GTC Ext"@,
            TimeInForce::IOC => "IOC"@,
        }
    }

    pub open spec fn from_wire(s: Seq<char>) -> Option<TimeInForce> {
        if s == "Day"@ {
            Some(TimeInForce::Day)
        } else if s == "GTC"@ {
            Some(TimeInForce::GTC)
        } else if s == "GTD"@ {
            Some(TimeInForce::GTD)
        } else if s == "Ext"@ {
            Some(TimeInForce::Ext)
        } else if s == "GTC Ext"@ {
            Some(TimeInForce::GTCExt)
        } else if s == "IOC"@ {
            Some(TimeInForce::IOC)
        } else {
            None
        }
    }

    pub fn wire_name(&self) -> (r: &'static str)
        ensures
            r@ == self.wire(),
    {
        match self {
            TimeInForce::Day => "Day",
            TimeInForce::GTC => "GTC",
            TimeInForce::GTD => "GTD",
            TimeInForce::Ext => "Ext",
            TimeInForce::GTCExt => "GTC Ext",
            TimeInForce::IOC => "IOC",
        }
    }

    pub fn parse_wire(s: &str) -> (r: Option<TimeInForce>)
        ensures
            r == Self::from_wire(s@),
    {
        if str_eq(s, "Day") {
            Some(TimeInForce::Day)
        } else if str_eq(s, "GTC") {
            Some(TimeInForce::GTC)
        } else if str_eq(s, "GTD") {
            Some(TimeInForce::GTD)
        } else if str_eq(s, "Ext") {
            Some(TimeInForce::Ext)
        } else if str_eq(s, "GTC Ext") {
            Some(TimeInForce::GTCExt)
        } else if str_eq(s, "IOC") {
            Some(TimeInForce::IOC)
        } else {
            None
        }
    }
}

/// Where an order stands in its life.
#[derive(Debug, Clone, Copy, PartialEq, Eq, Structural)]
pub enum OrderStatus {
    Received,
    Routed,
    InFlight,
    Live,
    CancelRequested,
    ReplaceRequested,
    Contingent,
    Filled,
    Cancelled,
    Expired,
    Rejected,
    Removed,
    PartiallyRemoved,
}

impl OrderStatus {
    pub open spec fn wire(self) -> Seq<char> {
        match self {
            OrderStatus::Received => "Received"@,
            OrderStatus::Routed => "Routed"@,
            OrderStatus::InFlight => "In Flight"@,
            OrderStatus::Live => "Live"@,
            OrderStatus::CancelRequested => "Cancel Requested"@,
            OrderStatus::ReplaceRequested => "Replace Requested"@,
            OrderStatus::Contingent => "Contingent"@,
            OrderStatus::Filled => "Filled"@,
            OrderStatus::Cancelled => "Cancelled"@,
            OrderStatus::Expired => "Expired"@,
            OrderStatus::Rejected => "Rejected"@,
            OrderStatus::Removed => "Removed"@,
            OrderStatus::PartiallyRemoved => "Partially Removed"@,
        }
    }

    pub open spec fn from_wire(s: Seq<char>) -> Option<OrderStatus> {
        if s == "Received"@ {
            Some(OrderStatus::Received)
        } else if s == "Routed"@ {
            Some(OrderStatus::Routed)
        } else if s == "In Flight"@ {
            Some(OrderStatus::InFlight)
        } else if s == "Live"@ {
            Some(OrderStatus::Live)
        } else if s == "Cancel Requested"@ {
            Some(OrderStatus::CancelRequested)
        } else if s == "Replace Requested"@ {
            Some(OrderStatus::ReplaceRequested)
        } else if s == "Contingent"@ {
            Some(OrderStatus::Contingent)
        } else if s == "Filled"@ {
            Some(OrderStatus::Filled)
        } else if s == "Cancelled"@ {
            Some(OrderStatus::Cancelled)
        } else if s == "Expired"@ {
            Some(OrderStatus::Expired)
        } else if s == "Rejected"@ {
            Some(OrderStatus::Rejected)
        } else if s == "Removed"@ {
            Some(OrderStatus::Removed)
        } else if s == "Partially Removed"@ {
            Some(OrderStatus::PartiallyRemoved)
        } else {
            None
        }
    }

    pub fn wire_name(&self) -> (r: &'static str)
        ensures
            r@ == self.wire(),
    {
        match self {
            OrderStatus::Received => "Received",
            OrderStatus::Routed => "Routed",
            OrderStatus::InFlight => "In Flight",
            OrderStatus::Live => "Live",
            OrderStatus::CancelRequested => "Cancel Requested",
            OrderStatus::ReplaceRequested => "Replace Requested",
            OrderStatus::Contingent => "Contingent",
            OrderStatus::Filled => "Filled",
            OrderStatus::Cancelled => "Cancelled",
            OrderStatus::Expired => "Expired",
            OrderStatus::Rejected => "Rejected",
            OrderStatus::Removed => "Removed",
            OrderStatus::PartiallyRemoved => "Partially Removed",
        }
    }

    pub fn parse_wire(s: &str) -> (r: Option<OrderStatus>)
        ensures
            r == Self::from_wire(s@),
    {
        if str_eq(s, "Received") {
            Some(OrderStatus::Received)
        } else if str_eq(s, "Routed") {
            Some(OrderStatus::Routed)
        } else if str_eq(s, "In Flight") {
            Some(OrderStatus::InFlight)
        } else if str_eq(s, "Live") {
            Some(OrderStatus::Live)
        } else if str_eq(s, "Cancel Requested") {
            Some(OrderStatus::CancelRequested)
        } else if str_eq(s, "Replace Requested") {
            Some(OrderStatus::ReplaceRequested)
        } else if str_eq(s, "Contingent") {
            Some(OrderStatus::Contingent)
        } else if str_eq(s, "Filled") {
            Some(OrderStatus::Filled)
        } else if str_eq(s, "Cancelled") {
            Some(OrderStatus::Cancelled)
        } else if str_eq(s, "Expired") {
            Some(OrderStatus::Expired)
        } else if str_eq(s, "Rejected") {
            Some(OrderStatus::Rejected)
        } else if str_eq(s, "Removed") {
            Some(OrderStatus::Removed)
        } else if str_eq(s, "Partially Removed") {
            Some(OrderStatus::PartiallyRemoved)
        } else {
            None
        }
    }
}

/// A brokerage-format textual symbol.
#[derive(Debug, Clone, PartialEq, Eq, PartialOrd, Ord, Hash)]
pub struct Symbol(pub String);

/// Anything that names an instrument in the brokerage's symbol space.
pub trait AsSymbol {
    fn as_symbol(&self) -> Symbol;
}

impl AsSymbol for Symbol {
    fn as_symbol(&self) -> (r: Symbol)
        ensures
            r.0@ == self.0@,
    {
        Symbol(String::from_str(self.0.as_str()))
    }
}

impl AsSymbol for String {
    fn as_symbol(&self) -> (r: Symbol)
        ensures
            r.0@ == self@,
    {
        Symbol(String::from_str(self.as_str()))
    }
}

/// The broker-assigned identifier of a working order.
#[derive(Debug, Clone, Copy, PartialEq, Eq, Structural)]
pub struct OrderId(pub u64);

/// A decimal amount, carried as its exact decimal text so that no precision
/// is lost crossing the wire.
#[derive(Debug, Clone, PartialEq, Eq)]
pub struct DecimalText(pub String);

/// One working order as reported on the account stream.
#[derive(Debug, Clone)]
pub struct LiveOrderRecord {
    pub id: OrderId,
    pub account_number: AccountNumber,
    pub time_in_force: TimeInForce,
    pub order_type: OrderType,
    pub size: u64,
    pub underlying_symbol: Symbol,
    pub price: DecimalText,
    pub price_effect: PriceEffect,
    pub status: OrderStatus,
    pub cancellable: bool,
    pub editable: bool,
    pub edited: bool,
}

/// Mathematical view of a `LiveOrderRecord`.
pub struct LiveOrderRecordView {
    pub id: u64,
    pub account_number: Seq<char>,
    pub time_in_force: TimeInForce,
    pub order_type: OrderType,
    pub size: u64,
    pub underlying_symbol: Seq<char>,
    pub price: Seq<char>,
    pub price_effect: PriceEffect,
    pub status: OrderStatus,
    pub cancellable: bool,
    pub editable: bool,
    pub edited: bool,
}

impl View for LiveOrderRecord {
    type V = LiveOrderRecordView;

    open spec fn view(&self) -> LiveOrderRecordView {
        LiveOrderRecordView {
            id: self.id.0,
            account_number: self.account_number.0@,
            time_in_force: self.time_in_force,
            order_type: self.order_type,
            size: self.size,
            underlying_symbol: self.underlying_symbol.0@,
            price: self.price.0@,
            price_effect: self.price_effect,
            status: self.status,
            cancellable: self.cancellable,
            editable: self.editable,
            edited: self.edited,
        }
    }
}

/// One leg of a working order.
#[derive(Debug, Clone)]
pub struct LiveOrderLeg {
    pub instrument_type: InstrumentType,
    pub symbol: Symbol,
    pub quantity: u64,
    pub remaining_quantity: u64,
    pub action: Action,
    pub fills: Vec<String>,
}

/// A warning attached to an order response; the broker sends none with any
/// structure.
#[derive(Debug, Clone)]
pub struct Warning {}

} // verus!
