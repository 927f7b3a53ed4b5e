use routube::channel::{Channel, PipePipe, DATA_DIR};
use routube::error::{ChannelError, Missing};

#[test]
fn without_slash() {
    let name = "Cool Youtuber";
    let url = "https://www.youtube.com/channel/U8ecCwsd92";
    let c = Channel::new(0, url.into(), name.into());
    assert_eq!(
        "U8ecCwsd92".to_owned(),
        c.parse_id().expect("Shout not error here")
    );
}

#[test]
fn with_slash() {
    let name = "Cool Youtuber";
    let url = "https://www.youtube.com/channel/U8ecCwsd92/";
    let c = Channel::new(0, url.into(), name.into());
    assert_eq!(
        "U8ecCwsd92".to_owned(),
        c.parse_id().expect("Shout not error here")
    );
}

#[test]
fn set_feed_path() {
    let url = "https://www.youtube.com/channel/UC9kZ6FlOQfusBV8LS2x2fAA/";
    let name = "Torsten Heinrich";
    let mut c = Channel::new(0, url.into(), name.into());

    assert!(c.feed_path.is_empty());

    let e = c.set_feed_path();

    assert!(e.is_err());

    let i = c.set_id();
    assert!(i.is_ok());

    let e = c.set_feed_path();

    assert!(e.is_ok());
    assert_eq!(c.feed_path, DATA_DIR.to_owned() + "UC9kZ6FlOQfusBV8LS2x2fAA");
}

#[test]
fn feed_path_is_data_dir_and_id() {
    let url = "https://www.youtube.com/channel/UC9kZ6FlOQfusBV8LS2x2fAA/";
    let mut c = Channel::new(0, url.into(), "Torsten Heinrich".into());
    c.set_id().unwrap();
    c.set_feed_path().unwrap();
    assert_eq!(c.feed_path, "data/UC9kZ6FlOQfusBV8LS2x2fAA");
    c.set_feed_path().unwrap();
    assert_eq!(c.feed_path, "data/UC9kZ6FlOQfusBV8LS2x2fAA");
}

#[test]
fn feed_path_before_id_names_identifier() {
    let mut c = Channel::new(0, "https://www.youtube.com/channel/abc".into(), "n".into());
    assert_eq!(
        c.set_feed_path(),
        Err(ChannelError::Precondition(Missing::ChannelId))
    );
    assert!(c.feed_path.is_empty());
}

#[test]
fn id_stops_at_next_segment() {
    let c = Channel::new(0, "https://www.youtube.com/channel/abc/videos".into(), "n".into());
    assert_eq!(c.parse_id().unwrap(), "abc");
}

#[test]
fn id_after_first_marker() {
    let c = Channel::new(
        0,
        "https://example.org/channel/first/channel/second".into(),
        "n".into(),
    );
    assert_eq!(c.parse_id().unwrap(), "first");
}

#[test]
fn id_with_wide_characters() {
    let c = Channel::new(0, "https://ä.example/channel/ünïcødé/x".into(), "n".into());
    assert_eq!(c.parse_id().unwrap(), "ünïcødé");
}

#[test]
fn empty_id_leaves_path_unset() {
    let mut c = Channel::new(0, "https://www.youtube.com/channel/".into(), "n".into());
    assert_eq!(c.parse_id().unwrap(), "");
    assert!(c.set_id().is_ok());
    assert_eq!(c.channel_id(), "");
    assert_eq!(
        c.set_feed_path(),
        Err(ChannelError::Precondition(Missing::ChannelId))
    );
}

#[test]
fn missing_marker_is_parse_error() {
    let mut c = Channel::new(0, "https://www.youtube.com/c/somebody".into(), "n".into());
    assert_eq!(c.parse_id(), Err(ChannelError::Parse));
    assert_eq!(c.set_id(), Err(ChannelError::Parse));
    assert_eq!(c.channel_id(), "");
    assert_eq!(c.feed_url(), Err(ChannelError::Parse));
}

#[test]
fn partial_marker_is_parse_error() {
    let c = Channel::new(0, "https://www.youtube.com/channel".into(), "n".into());
    assert_eq!(c.parse_id(), Err(ChannelError::Parse));
}

#[test]
fn set_id_keeps_url_and_name() {
    let mut c = Channel::new(7, "https://www.youtube.com/channel/xyz/".into(), "Some One".into());
    c.set_id().unwrap();
    assert_eq!(c.channel_id(), "xyz");
    assert_eq!(c.service_id(), 7);
    assert_eq!(c.url(), "https://www.youtube.com/channel/xyz/");
    assert_eq!(c.name(), "Some One");
    assert!(c.feed_path.is_empty());
    assert!(c.feed.is_none());
}

#[test]
fn feed_url_from_url() {
    let c = Channel::new(0, "https://www.youtube.com/channel/U8ecCwsd92/".into(), "n".into());
    assert_eq!(
        c.feed_url().unwrap(),
        "https://www.youtube.com/feeds/videos.xml?channel_id=U8ecCwsd92"
    );
}

#[test]
fn set_feed_stores_and_replaces() {
    let mut c = Channel::new(0, "https://www.youtube.com/channel/abc".into(), "n".into());
    assert_eq!(c.feed, None);
    assert!(c.set_feed(Ok("<feed>one</feed>".to_owned())).is_ok());
    assert_eq!(c.feed.as_deref(), Some("<feed>one</feed>"));
    assert!(c.set_feed(Ok("<feed>two</feed>".to_owned())).is_ok());
    assert_eq!(c.feed.as_deref(), Some("<feed>two</feed>"));
}

#[test]
fn failed_fetch_keeps_feed() {
    let mut c = Channel::new(0, "https://www.youtube.com/channel/abc".into(), "n".into());
    c.set_feed(Ok("kept".to_owned())).unwrap();
    let r = c.set_feed(Err(ChannelError::Network("refused".to_owned())));
    assert_eq!(r, Err(ChannelError::Network("refused".to_owned())));
    assert_eq!(c.feed.as_deref(), Some("kept"));
}

#[test]
fn feed_file_needs_path() {
    let mut c = Channel::new(0, "https://www.youtube.com/channel/abc".into(), "n".into());
    c.feed = Some("This is some very interesting feed\n".to_owned());
    assert_eq!(
        c.feed_file(),
        Err(ChannelError::Precondition(Missing::FeedPath))
    );
}

#[test]
fn feed_file_needs_feed() {
    let mut c = Channel::new(0, "https://www.youtube.com/channel/abc".into(), "n".into());
    c.set_id().unwrap();
    c.set_feed_path().unwrap();
    assert_eq!(c.feed_file(), Err(ChannelError::Precondition(Missing::Feed)));
}

#[test]
fn feed_file_after_all_steps() {
    let url = "https://www.youtube.com/channel/UC9kZ6FlOQfusBV8LS2x2fAA/";
    let mut c = Channel::new(0, url.into(), "Torsten Heinrich".into());
    let feed = "This is some very interesting feed\n".to_owned();
    c.feed = Some(feed.clone());
    assert!(c.feed_file().is_err());
    c.set_id().unwrap();
    c.set_feed_path().unwrap();
    let (path, doc) = c.feed_file().unwrap();
    assert_eq!(path, "data/UC9kZ6FlOQfusBV8LS2x2fAA");
    assert_eq!(doc, feed);
}

#[test]
fn roster_holds_channels_in_order() {
    let a = Channel::new(0, "https://www.youtube.com/channel/a".into(), "A".into());
    let b = Channel::new(1, "https://www.youtube.com/channel/b".into(), "B".into());
    let p = PipePipe::new("0.24.1".into(), 991, vec![a, b]);
    assert_eq!(p.app_version(), "0.24.1");
    assert_eq!(p.app_version_int(), 991);
    assert_eq!(p.channels().len(), 2);
    assert_eq!(p.channels()[0].name(), "A");
    assert_eq!(p.channels()[1].service_id(), 1);
}
