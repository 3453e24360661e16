//! The uniform event union an application consumes.
use vstd::prelude::*;
use crate::market::MarketEvent;
use crate::messages::AccountEvent;

verus! {

/// One event from either feed: a market-data event from the native feed,
/// or a decoded frame from the account stream.
#[derive(Debug)]
pub enum TastyEvent {
    QuoteFeed(MarketEvent),
    AccountFeed(AccountEvent),
}

} // verus!
