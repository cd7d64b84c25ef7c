use topic_bridge::envelope::{decode_envelope, ensure_leading_slash, Header, Timestamp};

#[test]
fn leading_slash_is_added() {
    assert_eq!(ensure_leading_slash("cam0/front".to_string()), "/cam0/front");
    assert_eq!(ensure_leading_slash(String::new()), "/");
}

#[test]
fn leading_slash_is_kept() {
    assert_eq!(ensure_leading_slash("/cam0/front".to_string()), "/cam0/front");
    assert_eq!(ensure_leading_slash("/".to_string()), "/");
}

#[test]
fn missing_header_gives_root_and_now() {
    let now = Timestamp { seconds: 1_700_000_000, nanos: 5 };
    let (path, time) = decode_envelope(None, now);
    assert_eq!(path, "/");
    assert_eq!(time, now);
}

#[test]
fn header_time_and_path_are_used() {
    let now = Timestamp { seconds: 10, nanos: 0 };
    let stamp = Timestamp { seconds: 3, nanos: 500_000_000 };
    let h = Header { entity_path: "cam0/front".to_string(), timestamp: Some(stamp) };
    assert_eq!(decode_envelope(Some(h), now), ("/cam0/front".to_string(), stamp));
    let h = Header { entity_path: "/x".to_string(), timestamp: None };
    assert_eq!(decode_envelope(Some(h), now), ("/x".to_string(), now));
}
