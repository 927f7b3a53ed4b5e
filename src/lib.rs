//! Channel feed bookkeeping: pull the channel identifier out of a channel URL,
//! derive the feed URL and the feed file's path from it, and hold a fetched
//! feed until it is written out.

pub mod channel;
pub mod error;
pub mod ident;
pub mod lifecycle;

