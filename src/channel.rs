//! A subscribable channel and the steps that derive its identifier, feed URL,
//! feed path and feed document, each checking that the steps it needs came first.
use vstd::prelude::*;
use vstd::string::StringExecFns;
use crate::error::{ChannelError, Missing};
use crate::ident::{channel_id_of, channel_marker, find_channel_marker, find_slash_or_end, MARKER_LEN};

verus! {

/// The directory under which feed files are written.
pub const DATA_DIR: &'static str = "data/";

/// The feed URL of a channel is this text followed by its identifier.
pub const FEED_URL_BASE: &'static str = "https://www.youtube.com/feeds/videos.xml?channel_id=";

/// A roster of channels, as exported by a channel-list application.
pub struct PipePipe {
    app_version: String,
    app_version_int: i32,
    channels: Vec<Channel>,
}

/// One channel: where it lives and what has been derived from that so far.
pub struct Channel {
    service_id: u16,
    url: String,
    name: String,
    /// Where the feed is written; empty until computed.
    pub feed_path: String,
    channel_id: String,
    /// The last feed document retrieved, if any.
    pub feed: Option<String>,
}

/// The mathematical state of a [`Channel`].
pub struct ChannelView {
    pub service_id: u16,
    pub url: Seq<char>,
    pub name: Seq<char>,
    pub feed_path: Seq<char>,
    pub channel_id: Seq<char>,
    pub feed: Option<Seq<char>>,
}

/// The text of each `String` in an optional one.
pub open spec fn opt_text(o: Option<String>) -> Option<Seq<char>> {
    match o {
        Some(s) => Some(s@),
        None => None,
    }
}

/// The text of a `String` result.
pub open spec fn text_result(r: Result<String, ChannelError>) -> Result<Seq<char>, ChannelError> {
    match r {
        Ok(s) => Ok(s@),
        Err(e) => Err(e),
    }
}

impl View for Channel {
    type V = ChannelView;

    closed spec fn view(&self) -> ChannelView {
        ChannelView {
            service_id: self.service_id,
            url: self.url@,
            name: self.name@,
            feed_path: self.feed_path@,
            channel_id: self.channel_id@,
            feed: opt_text(self.feed),
        }
    }
}

impl ChannelView {
    /// The identifier, once set, is the one the URL names; the feed path,
    /// once set, is the data directory followed by the identifier.
    pub open spec fn wf(self) -> bool {
        &&& (self.channel_id.len() > 0 ==> channel_id_of(self.url) == Some(self.channel_id))
        &&& (self.feed_path.len() > 0 ==> self.channel_id.len() > 0 && self.feed_path
            == DATA_DIR@ + self.channel_id)
    }

    /// A channel as first built: nothing derived yet.
    pub open spec fn is_fresh(self) -> bool {
        &&& self.feed_path.len() == 0
        &&& self.channel_id.len() == 0
        &&& self.feed is None
    }

    /// The identifier that the URL names.
    pub open spec fn parsed_id(self) -> Result<Seq<char>, ChannelError> {
        match channel_id_of(self.url) {
            Some(id) => Ok(id),
            None => Err(ChannelError::Parse),
        }
    }

    /// The state after the identifier is set from the URL.
    pub open spec fn with_id(self) -> Result<ChannelView, ChannelError> {
        match channel_id_of(self.url) {
            Some(id) => Ok(ChannelView { channel_id: id, ..self }),
            None => Err(ChannelError::Parse),
        }
    }

    /// The state after the feed path is computed from the identifier.
    pub open spec fn with_feed_path(self) -> Result<ChannelView, ChannelError> {
        if self.channel_id.len() == 0 {
            Err(ChannelError::Precondition(Missing::ChannelId))
        } else {
            Ok(ChannelView { feed_path: DATA_DIR@ + self.channel_id, ..self })
        }
    }

    /// The state after a retrieval that gave `fetched`.
    pub open spec fn with_feed(self, fetched: Result<Seq<char>, ChannelError>) -> Result<
        ChannelView,
        ChannelError,
    > {
        match fetched {
            Ok(doc) => Ok(ChannelView { feed: Some(doc), ..self }),
            Err(e) => Err(e),
        }
    }

    /// The URL from which the channel's feed is retrieved.
    pub open spec fn feed_url(self) -> Result<Seq<char>, ChannelError> {
        match channel_id_of(self.url) {
            Some(id) => Ok(FEED_URL_BASE@ + id),
            None => Err(ChannelError::Parse),
        }
    }

    /// The file to write and what to write into it.
    pub open spec fn feed_file(self) -> Result<(Seq<char>, Seq<char>), ChannelError> {
        if self.feed_path.len() == 0 {
            Err(ChannelError::Precondition(Missing::FeedPath))
        } else {
            match self.feed {
                Some(doc) => Ok((self.feed_path, doc)),
                None => Err(ChannelError::Precondition(Missing::Feed)),
            }
        }
    }
}

impl Channel {
    /// A channel with nothing derived yet.
    pub fn new(service_id: u16, url: String, name: String) -> (c: Self)
        ensures
            c@.service_id == service_id,
            c@.url == url@,
            c@.name == name@,
            c@.is_fresh(),
            c@.wf(),
    {
        Channel {
            service_id,
            url,
            name,
            feed_path: String::new(),
            channel_id: String::new(),
            feed: None,
        }
    }

    /// The identifier in the URL: what follows the first `/channel/`, up to
    /// the next `/` or the end.
    pub fn parse_id(&self) -> (r: Result<String, ChannelError>)
        ensures
            text_result(r) == self@.parsed_id(),
    {
        let s = self.url.as_str();
        match find_channel_marker(s) {
            None => Err(ChannelError::Parse),
            Some(k) => {
                proof {
                    assert(channel_marker().len() == MARKER_LEN);
                }
                let start = k + MARKER_LEN;
                let end = find_slash_or_end(s, start);
                Ok(s.substring_char(start, end).to_owned())
            },
        }
    }

    /// Sets the identifier from the URL; on failure nothing changes.
    pub fn set_id(&mut self) -> (r: Result<(), ChannelError>)
        ensures
            match old(self)@.with_id() {
                Ok(v) => r is Ok && final(self)@ == v,
                Err(e) => r == Err::<(), ChannelError>(e) && final(self)@ == old(self)@,
            },
            old(self)@.wf() ==> final(self)@.wf(),
    {
        match self.parse_id() {
            Ok(id) => {
                self.channel_id = id;
                Ok(())
            },
            Err(e) => Err(e),
        }
    }

    /// Sets the feed path to the data directory followed by the identifier;
    /// fails, changing nothing, while the identifier is unset.
    pub fn set_feed_path(&mut self) -> (r: Result<(), ChannelError>)
        ensures
            match old(self)@.with_feed_path() {
                Ok(v) => r is Ok && final(self)@ == v,
                Err(e) => r == Err::<(), ChannelError>(e) && final(self)@ == old(self)@,
            },
            old(self)@.wf() ==> final(self)@.wf(),
    {
        if self.channel_id.as_str().is_empty() {
            return Err(ChannelError::Precondition(Missing::ChannelId));
        }
        let mut path = DATA_DIR.to_owned();
        path.append(self.channel_id.as_str());
        self.feed_path = path;
        Ok(())
    }

    /// The URL of the channel's feed, from the identifier in its URL (the
    /// identifier need not have been set).
    pub fn feed_url(&self) -> (r: Result<String, ChannelError>)
        ensures
            text_result(r) == self@.feed_url(),
    {
        match self.parse_id() {
            Ok(id) => {
                let mut u = FEED_URL_BASE.to_owned();
                u.append(id.as_str());
                Ok(u)
            },
            Err(e) => Err(e),
        }
    }

    /// Stores the document of a successful retrieval, replacing any earlier
    /// one; a failed retrieval is handed back and nothing changes.
    pub fn set_feed(&mut self, fetched: Result<String, ChannelError>) -> (r: Result<(), ChannelError>)
        ensures
            match old(self)@.with_feed(text_result(fetched)) {
                Ok(v) => r is Ok && final(self)@ == v,
                Err(e) => r == Err::<(), ChannelError>(e) && final(self)@ == old(self)@,
            },
            old(self)@.wf() ==> final(self)@.wf(),
    {
        match fetched {
            Ok(doc) => {
                self.feed = Some(doc);
                Ok(())
            },
            Err(e) => Err(e),
        }
    }

    /// The path of the feed file and the text to write there; fails while
    /// the path or the feed is unset, naming the one that is missing.
    pub fn feed_file(&self) -> (r: Result<(&str, &str), ChannelError>)
        ensures
            match self@.feed_file() {
                Ok((path, doc)) => r matches Ok((p, d)) && p@ == path && d@ == doc,
                Err(e) => r matches Err(f) && f == e,
            },
    {
        if self.feed_path.as_str().is_empty() {
            return Err(ChannelError::Precondition(Missing::FeedPath));
        }
        match &self.feed {
            Some(doc) => Ok((self.feed_path.as_str(), doc.as_str())),
            None => Err(ChannelError::Precondition(Missing::Feed)),
        }
    }

    /// The number naming the hosting service.
    pub fn service_id(&self) -> (r: u16)
        ensures
            r == self@.service_id,
    {
        self.service_id
    }

    /// The channel's URL.
    pub fn url(&self) -> (r: &str)
        ensures
            r@ == self@.url,
    {
        self.url.as_str()
    }

    /// The channel's display name.
    pub fn name(&self) -> (r: &str)
        ensures
            r@ == self@.name,
    {
        self.name.as_str()
    }

    /// The identifier, empty until set.
    pub fn channel_id(&self) -> (r: &str)
        ensures
            r@ == self@.channel_id,
    {
        self.channel_id.as_str()
    }
}

/// The mathematical state of a [`PipePipe`].
pub struct PipePipeView {
    pub app_version: Seq<char>,
    pub app_version_int: i32,
    pub channels: Seq<Channel>,
}

impl View for PipePipe {
    type V = PipePipeView;

    closed spec fn view(&self) -> PipePipeView {
        PipePipeView {
            app_version: self.app_version@,
            app_version_int: self.app_version_int,
            channels: self.channels@,
        }
    }
}

impl PipePipe {
    /// A roster from its version text, version number and channels.
    pub fn new(app_version: String, app_version_int: i32, channels: Vec<Channel>) -> (p: Self)
        ensures
            p@.app_version == app_version@,
            p@.app_version_int == app_version_int,
            p@.channels == channels@,
    {
        PipePipe { app_version, app_version_int, channels }
    }

    /// The exporting application's version text.
    pub fn app_version(&self) -> (r: &str)
        ensures
            r@ == self@.app_version,
    {
        self.app_version.as_str()
    }

    /// The exporting application's version number.
    pub fn app_version_int(&self) -> (r: i32)
        ensures
            r == self@.app_version_int,
    {
        self.app_version_int
    }

    /// The channels of the roster, in order.
    pub fn channels(&self) -> (r: &Vec<Channel>)
        ensures
            r@ == self@.channels,
    {
        &self.channels
    }
}

} // verus!
