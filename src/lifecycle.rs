//! Facts about the order in which a channel's steps must be taken.
use vstd::prelude::*;
use crate::channel::{ChannelView, DATA_DIR};
use crate::error::{ChannelError, Missing};
use crate::ident::{channel_id_of, lemma_no_marker_no_id, marker_at};

verus! {

/// A channel whose URL holds no `/channel/` marker yields a parse error,
/// both when its identifier is extracted and when it is set.
pub proof fn lemma_no_marker_is_parse_error(c: ChannelView)
    requires
        forall|j: int| !marker_at(c.url, j),
    ensures
        c.parsed_id() == Err::<Seq<char>, ChannelError>(ChannelError::Parse),
        c.with_id() == Err::<ChannelView, ChannelError>(ChannelError::Parse),
        c.feed_url() == Err::<Seq<char>, ChannelError>(ChannelError::Parse),
{
    lemma_no_marker_no_id(c.url);
}

/// The feed path cannot be computed before the identifier is set; once the
/// identifier has been set to a non-empty value, the path is the data
/// directory followed by that identifier.
pub proof fn lemma_path_needs_id(c: ChannelView)
    ensures
        c.channel_id.len() == 0 ==> c.with_feed_path() == Err::<ChannelView, ChannelError>(
            ChannelError::Precondition(Missing::ChannelId),
        ),
        c.with_id() matches Ok(c1) ==> (c1.channel_id.len() > 0 ==> (c1.with_feed_path() matches Ok(
            c2,
        ) && c2.feed_path == DATA_DIR@ + channel_id_of(c.url)->0)),
{
}

/// The feed file cannot be had while the path or the feed is unset.
pub proof fn lemma_file_needs_path_and_feed(c: ChannelView)
    ensures
        c.feed_path.len() == 0 ==> c.feed_file() == Err::<(Seq<char>, Seq<char>), ChannelError>(
            ChannelError::Precondition(Missing::FeedPath),
        ),
        c.feed_path.len() > 0 && c.feed is None ==> c.feed_file() == Err::<
            (Seq<char>, Seq<char>),
            ChannelError,
        >(ChannelError::Precondition(Missing::Feed)),
{
}

/// After the identifier is set, the path computed and a feed stored, the
/// feed file is the data directory followed by the identifier, and what is
/// written there is exactly the stored document.
pub proof fn lemma_file_after_all_steps(c: ChannelView, doc: Seq<char>)
    requires
        channel_id_of(c.url) matches Some(id) && id.len() > 0,
    ensures
        c.with_id() matches Ok(c1) && c1.with_feed_path() matches Ok(c2) && c2.with_feed(
            Ok(doc),
        ) matches Ok(c3) && c3.feed_file() == Ok::<(Seq<char>, Seq<char>), ChannelError>(
            (DATA_DIR@ + channel_id_of(c.url)->0, doc),
        ),
{
}

} // verus!
