use icecast_stats::{
    decode, decode_doc, finish_fetch, generate_icecast_stats_url, status_url_string, url_to_string,
    DecodeError, FetchError, TimestampMode,
};

#[test]
fn derives_status_url() {
    let url = url::Url::parse("https://stream.example.com:8000/somestream").unwrap();
    let stats_url = generate_icecast_stats_url(url);
    assert_eq!(
        url_to_string(&stats_url),
        "https://stream.example.com:8000/status-json.xsl"
    );
}

#[test]
fn derivation_is_idempotent() {
    for base in [
        "https://stream.example.com:8000/somestream",
        "http://user:pw@host.example:1234/some/path?q=1#frag",
        "http://plain.example/",
    ] {
        let url = url::Url::parse(base).unwrap();
        let once = generate_icecast_stats_url(url);
        let once_str = url_to_string(&once);
        let twice = generate_icecast_stats_url(once);
        assert_eq!(url_to_string(&twice), once_str);
    }
}

#[test]
fn derivation_preserves_everything_but_the_path() {
    let url = url::Url::parse("http://user:pw@host.example:1234/some/path?q=1#frag").unwrap();
    let derived = generate_icecast_stats_url(url);
    assert_eq!(
        url_to_string(&derived),
        "http://user:pw@host.example:1234/status-json.xsl?q=1#frag"
    );
}

#[test]
fn status_url_string_rejects_invalid_input() {
    assert_eq!(
        status_url_string("not a url").unwrap_err(),
        FetchError::InvalidUrl
    );
    assert_eq!(
        status_url_string("https://stream.example.com:8000/somestream").unwrap(),
        "https://stream.example.com:8000/status-json.xsl"
    );
}

#[test]
fn transport_error_is_never_a_decode_error() {
    let err = finish_fetch(Err("connection refused".to_owned()), TimestampMode::Raw).unwrap_err();
    assert_eq!(err, FetchError::Transport("connection refused".to_owned()));
}

#[test]
fn fetched_body_is_decoded() {
    let body = br#"{"icestats": {"admin": "a", "host": "h", "location": "l",
        "server_id": "s", "server_start_iso8601": "t", "clients": 4}}"#;
    let stats = finish_fetch(Ok(body.to_vec()), TimestampMode::Raw).unwrap();
    assert_eq!(stats.host(), "h");
    assert_eq!(*stats.clients(), Some(4));

    let err = finish_fetch(Ok(b"junk".to_vec()), TimestampMode::Raw).unwrap_err();
    assert_eq!(err, FetchError::Decode(DecodeError::Malformed));
}

#[test]
fn encode_then_decode_restores_the_snapshot() {
    let doc = br#"{
        "icestats": {
            "admin": "icemaster@localhost",
            "host": "localhost",
            "location": "Earth",
            "server_id": "Icecast 2.4.4",
            "server_start_iso8601": "2021-04-09T21:49:50+0200",
            "clients": 3,
            "listeners": 2,
            "sources": 1,
            "source": {
                "artist": "Someone",
                "audio_bitrate": 128000,
                "audio_channels": 1,
                "ice-bitrate": 128,
                "listeners": 0,
                "listenurl": "http://localhost:8000/test2",
                "subtype": "Vorbis"
            }
        }
    }"#;
    let first = decode(doc, TimestampMode::Raw).unwrap();
    let encoded = first.encode();
    let second = decode_doc(&encoded, TimestampMode::Raw).unwrap();
    assert_eq!(first, second);
}

#[test]
fn encode_then_decode_keeps_none_and_cardinality() {
    // No optional counters, no source field at all.
    let bare = br#"{"icestats": {"admin": "a", "host": "h", "location": "l",
        "server_id": "s", "server_start_iso8601": "t"}}"#;
    let first = decode(bare, TimestampMode::Raw).unwrap();
    let second = decode_doc(&first.encode(), TimestampMode::Raw).unwrap();
    assert_eq!(first, second);
    assert!(second.source.is_none());
    assert_eq!(*second.listeners(), None);

    // A source list of two keeps its length and order.
    let many = br#"{"icestats": {"admin": "a", "host": "h", "location": "l",
        "server_id": "s", "server_start_iso8601": "t",
        "source": [{"listeners": 1}, {"listeners": 2, "artist": "X"}]}}"#;
    let first = decode(many, TimestampMode::Raw).unwrap();
    let second = decode_doc(&first.encode(), TimestampMode::Raw).unwrap();
    assert_eq!(first, second);

    // An empty source list stays an empty list, not an absent field.
    let empty = br#"{"icestats": {"admin": "a", "host": "h", "location": "l",
        "server_id": "s", "server_start_iso8601": "t", "source": []}}"#;
    let first = decode(empty, TimestampMode::Raw).unwrap();
    let second = decode_doc(&first.encode(), TimestampMode::Raw).unwrap();
    assert_eq!(first, second);
}
