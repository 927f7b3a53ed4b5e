use vstd::prelude::*;

verus! {

/// The piece of a channel's state that an operation needed and found unset.
#[derive(Debug, Clone, Copy, PartialEq, Eq)]
pub enum Missing {
    ChannelId,
    FeedPath,
    Feed,
}

/// Why an operation on a channel failed.
#[derive(Debug, PartialEq, Eq)]
pub enum ChannelError {
    /// The URL holds no `/channel/` marker.
    Parse,
    /// The feed could not be retrieved; the text describes the transport failure.
    Network(String),
    /// An earlier step of the sequence has not been taken.
    Precondition(Missing),
    /// The feed file could not be written; the text describes the failure.
    Io(String),
}

} // verus!
