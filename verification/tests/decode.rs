use icecast_stats::{
    decode, DecodeError, IcecastStatsSourceEnum, Json, TimestampMode,
};

const FULL_DOC: &[u8] = br#"{
    "icestats": {
        "admin": "icemaster@localhost",
        "host": "localhost",
        "location": "Earth",
        "server_id": "Icecast 2.4.4",
        "server_start_iso8601": "2021-04-09T21:49:50+0200",
        "clients": 3,
        "listeners": 2,
        "sources": 1,
        "source": {
            "audio_bitrate": 128000,
            "audio_channels": 1,
            "audio_samplerate": 48000,
            "bitrate": 128,
            "genre": "various",
            "ice-bitrate": 128,
            "listener_peak": 1,
            "listeners": 0,
            "listenurl": "http://localhost:8000/test2",
            "server_description": "Unspecified description",
            "server_name": "Unspecified name",
            "server_type": "application/ogg",
            "stream_start_iso8601": "2021-04-09T21:49:52+0200",
            "subtype": "Vorbis",
            "dummy": null
        }
    }
}"#;

#[test]
fn full_document_decodes() {
    let stats = decode(FULL_DOC, TimestampMode::Raw).unwrap();
    assert_eq!(stats.admin(), "icemaster@localhost");
    assert_eq!(stats.host(), "localhost");
    assert_eq!(stats.location(), "Earth");
    assert_eq!(stats.server_id(), "Icecast 2.4.4");
    assert_eq!(stats.server_start_iso8601(), "2021-04-09T21:49:50+0200");
    assert_eq!(*stats.clients(), Some(3));
    assert_eq!(*stats.listeners(), Some(2));
    assert_eq!(*stats.sources(), Some(1));
    // Absent optional counters stay None, not zero.
    assert_eq!(*stats.connections(), None);
    assert_eq!(*stats.stats_connections(), None);
    match &stats.source {
        Some(IcecastStatsSourceEnum::Single(s)) => {
            assert_eq!(*s.audio_bitrate(), Some(128000));
            assert_eq!(*s.audio_channels(), Some(1));
            assert_eq!(*s.audio_samplerate(), Some(48000));
            assert_eq!(*s.bitrate(), Some(128));
            assert_eq!(*s.genre(), Some("various".to_owned()));
            assert_eq!(*s.ice_bitrate(), Some(128));
            assert_eq!(*s.listener_peak(), Some(1));
            assert_eq!(*s.listeners(), Some(0));
            assert_eq!(*s.listenurl(), Some("http://localhost:8000/test2".to_owned()));
            assert_eq!(*s.server_type(), Some("application/ogg".to_owned()));
            assert_eq!(*s.subtype(), Some("Vorbis".to_owned()));
            assert_eq!(
                *s.stream_start_iso8601(),
                Some("2021-04-09T21:49:52+0200".to_owned())
            );
            assert_eq!(*s.artist(), None);
            assert_eq!(*s.title(), None);
            assert_eq!(*s.user_agent(), None);
        },
        other => panic!("expected a single source, got {:?}", other),
    }
}

#[test]
fn source_absent_is_none() {
    let doc = br#"{"icestats": {"admin": "a", "host": "h", "location": "l",
        "server_id": "s", "server_start_iso8601": "t"}}"#;
    let stats = decode(doc, TimestampMode::Raw).unwrap();
    assert!(stats.source.is_none());
}

#[test]
fn source_single_object_is_single() {
    let doc = br#"{"icestats": {"admin": "a", "host": "h", "location": "l",
        "server_id": "s", "server_start_iso8601": "t",
        "source": {"listeners": 7}}}"#;
    let stats = decode(doc, TimestampMode::Raw).unwrap();
    match &stats.source {
        Some(IcecastStatsSourceEnum::Single(s)) => assert_eq!(*s.listeners(), Some(7)),
        other => panic!("expected a single source, got {:?}", other),
    }
}

#[test]
fn source_array_is_multiple_in_order() {
    let doc = br#"{"icestats": {"admin": "a", "host": "h", "location": "l",
        "server_id": "s", "server_start_iso8601": "t",
        "source": [{"listeners": 1}, {"listeners": 2}]}}"#;
    let stats = decode(doc, TimestampMode::Raw).unwrap();
    match &stats.source {
        Some(IcecastStatsSourceEnum::Multiple(v)) => {
            assert_eq!(v.len(), 2);
            assert_eq!(*v[0].listeners(), Some(1));
            assert_eq!(*v[1].listeners(), Some(2));
        },
        other => panic!("expected multiple sources, got {:?}", other),
    }
}

#[test]
fn source_empty_array_stays_multiple() {
    let doc = br#"{"icestats": {"admin": "a", "host": "h", "location": "l",
        "server_id": "s", "server_start_iso8601": "t", "source": []}}"#;
    let stats = decode(doc, TimestampMode::Raw).unwrap();
    match &stats.source {
        Some(IcecastStatsSourceEnum::Multiple(v)) => assert_eq!(v.len(), 0),
        other => panic!("expected an empty source list, got {:?}", other),
    }
}

#[test]
fn missing_host_is_missing_field() {
    let doc = br#"{"icestats": {"admin": "a", "location": "l",
        "server_id": "s", "server_start_iso8601": "t"}}"#;
    let err = decode(doc, TimestampMode::Raw).unwrap_err();
    assert_eq!(err, DecodeError::MissingField { name: "host".to_owned() });
}

#[test]
fn listeners_as_string_is_type_mismatch() {
    let doc = br#"{"icestats": {"admin": "a", "host": "h", "location": "l",
        "server_id": "s", "server_start_iso8601": "t", "listeners": "12"}}"#;
    let err = decode(doc, TimestampMode::Raw).unwrap_err();
    match err {
        DecodeError::TypeMismatch { name, .. } => assert_eq!(name, "listeners"),
        other => panic!("expected a type mismatch, got {:?}", other),
    }
}

#[test]
fn counter_too_large_is_type_mismatch() {
    let doc = br#"{"icestats": {"admin": "a", "host": "h", "location": "l",
        "server_id": "s", "server_start_iso8601": "t", "listeners": 5000000000}}"#;
    let err = decode(doc, TimestampMode::Raw).unwrap_err();
    match err {
        DecodeError::TypeMismatch { name, .. } => assert_eq!(name, "listeners"),
        other => panic!("expected a type mismatch, got {:?}", other),
    }
}

#[test]
fn audio_channels_too_large_is_type_mismatch() {
    let doc = br#"{"icestats": {"admin": "a", "host": "h", "location": "l",
        "server_id": "s", "server_start_iso8601": "t",
        "source": {"audio_channels": 300}}}"#;
    let err = decode(doc, TimestampMode::Raw).unwrap_err();
    match err {
        DecodeError::TypeMismatch { name, .. } => assert_eq!(name, "audio_channels"),
        other => panic!("expected a type mismatch, got {:?}", other),
    }
}

#[test]
fn unknown_field_is_ignored() {
    let doc = br#"{"icestats": {"admin": "a", "host": "h", "location": "l",
        "server_id": "s", "server_start_iso8601": "t", "dummy": null}}"#;
    let stats = decode(doc, TimestampMode::Raw).unwrap();
    assert_eq!(stats.admin(), "a");
    assert_eq!(stats.host(), "h");
    assert!(stats.source.is_none());
}

#[test]
fn invalid_json_is_malformed() {
    let err = decode(b"{ not json", TimestampMode::Raw).unwrap_err();
    assert_eq!(err, DecodeError::Malformed);
}

#[test]
fn missing_wrapper_is_unexpected_shape() {
    let err = decode(br#"{"other": 1}"#, TimestampMode::Raw).unwrap_err();
    assert_eq!(err, DecodeError::UnexpectedShape);
}

#[test]
fn non_object_wrapper_is_unexpected_shape() {
    let err = decode(br#"{"icestats": 5}"#, TimestampMode::Raw).unwrap_err();
    assert_eq!(err, DecodeError::UnexpectedShape);
    let err = decode(br#"[1, 2]"#, TimestampMode::Raw).unwrap_err();
    assert_eq!(err, DecodeError::UnexpectedShape);
}

#[test]
fn source_of_wrong_type_is_type_mismatch() {
    let doc = br#"{"icestats": {"admin": "a", "host": "h", "location": "l",
        "server_id": "s", "server_start_iso8601": "t", "source": 3}}"#;
    let err = decode(doc, TimestampMode::Raw).unwrap_err();
    match err {
        DecodeError::TypeMismatch { name, expected } => {
            assert_eq!(name, "source");
            assert_eq!(expected, "object or array");
        },
        other => panic!("expected a type mismatch, got {:?}", other),
    }
}

#[test]
fn bad_source_element_fails_whole_decode() {
    let doc = br#"{"icestats": {"admin": "a", "host": "h", "location": "l",
        "server_id": "s", "server_start_iso8601": "t",
        "source": [{"listeners": 1}, {"listeners": "x"}]}}"#;
    let err = decode(doc, TimestampMode::Raw).unwrap_err();
    match err {
        DecodeError::TypeMismatch { name, .. } => assert_eq!(name, "listeners"),
        other => panic!("expected a type mismatch, got {:?}", other),
    }
}

#[test]
fn strict_mode_accepts_valid_timestamp() {
    let doc = br#"{"icestats": {"admin": "a", "host": "h", "location": "l",
        "server_id": "s", "server_start_iso8601": "2021-04-09T21:49:50+02:00"}}"#;
    let stats = decode(doc, TimestampMode::Strict).unwrap();
    assert_eq!(stats.server_start_iso8601(), "2021-04-09T21:49:50+02:00");
}

#[test]
fn strict_mode_rejects_loose_timestamp() {
    let doc = br#"{"icestats": {"admin": "a", "host": "h", "location": "l",
        "server_id": "s", "server_start_iso8601": "Fri, 09 Apr 2021 21:49:50 +0200"}}"#;
    let err = decode(doc, TimestampMode::Strict).unwrap_err();
    match err {
        DecodeError::TypeMismatch { name, .. } => assert_eq!(name, "server_start_iso8601"),
        other => panic!("expected a type mismatch, got {:?}", other),
    }
    // The same document decodes in raw mode.
    assert!(decode(doc, TimestampMode::Raw).is_ok());
}

#[test]
fn parse_json_models_document() {
    let j = icecast_stats::parse_json(br#"{"a": [1, true, null, "x"]}"#).unwrap();
    match j {
        Json::Obj(es) => {
            assert_eq!(es.len(), 1);
            assert_eq!(es[0].0, "a");
            match &es[0].1 {
                Json::Arr(a) => {
                    assert_eq!(a.len(), 4);
                    assert_eq!(a[0], Json::Num(1));
                    assert_eq!(a[1], Json::Bool(true));
                    assert_eq!(a[2], Json::Null);
                    assert_eq!(a[3], Json::Str("x".to_owned()));
                },
                other => panic!("expected an array, got {:?}", other),
            }
        },
        other => panic!("expected an object, got {:?}", other),
    }
    assert!(icecast_stats::parse_json(b"nope").is_none());
}

#[test]
fn unknown_field_in_the_middle_is_ignored() {
    let plain = br#"{"icestats": {"admin": "a", "host": "h", "location": "l",
        "server_id": "s", "server_start_iso8601": "t", "listeners": 5}}"#;
    let extended = br#"{"icestats": {"admin": "a", "host": "h", "dummy": null,
        "location": "l", "server_id": "s", "server_start_iso8601": "t", "listeners": 5}}"#;
    let a = decode(plain, TimestampMode::Raw).unwrap();
    let b = decode(extended, TimestampMode::Raw).unwrap();
    assert_eq!(a, b);
}
