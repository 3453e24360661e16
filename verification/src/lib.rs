//! Client-side streaming core for a brokerage account-event feed and a
//! vendor market-data feed: message taxonomy, frame codec, channel bridging,
//! and the lifecycle of native feed resources.
pub mod account_stream;
pub mod accounts;
pub mod channel;
pub mod codec;
pub mod events;
pub mod feed;
pub mod heartbeat;
pub mod instruments;
pub mod json;
pub mod market;
pub mod messages;
pub mod orders;
pub mod positions;
pub mod rest;
