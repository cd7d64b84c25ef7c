use topic_bridge::handlers::MessageKind;
use topic_bridge::registry::MessageTypeRegistry;
use topic_bridge::topic::extract_message_type_from_topic_key;

#[test]
fn extracts_schema_identifier() {
    assert_eq!(
        extract_message_type_from_topic_key("a/b/c/make87_messages-image-uncompressed-ImageRGB888/x"),
        Some("image-uncompressed-ImageRGB888")
    );
    assert_eq!(
        extract_message_type_from_topic_key("p/a/b/c/make87_messages-text-PlainText/"),
        Some("text-PlainText")
    );
}

#[test]
fn topic_without_convention_has_no_identifier() {
    assert_eq!(extract_message_type_from_topic_key("a/b/make87_messages-text-PlainText/x"), None);
    assert_eq!(extract_message_type_from_topic_key("a/b/c/make87_messages-text-PlainText"), None);
    assert_eq!(extract_message_type_from_topic_key("a/b/c/make87_messages-/x"), None);
    assert_eq!(extract_message_type_from_topic_key("a/b/c/other-text-PlainText/x"), None);
    assert_eq!(extract_message_type_from_topic_key(""), None);
}

#[test]
fn first_schema_segment_wins() {
    assert_eq!(
        extract_message_type_from_topic_key(
            "a/b/c/make87_messages-text-PlainText/make87_messages-image-compressed-ImageJPEG/x"
        ),
        Some("text-PlainText")
    );
}

#[test]
fn default_registry_resolves_known_schemas() {
    let registry = MessageTypeRegistry::new();
    let cases = [
        ("text-PlainText", MessageKind::TextPlainText),
        ("image-compressed-ImageJPEG", MessageKind::ImageCompressedJpeg),
        ("image-uncompressed-ImageRawAny", MessageKind::ImageRawAny),
        ("image-uncompressed-ImageYUV420", MessageKind::ImageYuv420),
        ("image-uncompressed-ImageRGB888", MessageKind::ImageRgb888),
        ("image-uncompressed-ImageRGBA8888", MessageKind::ImageRgba8888),
        ("detection-box-Boxes2DAxisAligned", MessageKind::Boxes2DAxisAligned),
    ];
    for (id, kind) in cases {
        let topic = format!("node/out/any/make87_messages-{}/cam", id);
        let handler = registry.create_handler_from_topic_key(&topic).unwrap();
        assert_eq!(handler.message_kind(), kind);
    }
}

#[test]
fn unknown_schema_resolves_to_none() {
    let registry = MessageTypeRegistry::new();
    assert!(registry
        .create_handler_from_topic_key("a/b/c/make87_messages-image-uncompressed-ImageYUV422/x")
        .is_none());
    assert!(registry.create_handler_from_topic_key("a/b/c/d").is_none());
    assert!(registry
        .create_handler_from_topic_key("a/b/c/make87_messages-text-plaintext/x")
        .is_none());
}

#[test]
fn register_overwrites_route() {
    let mut registry = MessageTypeRegistry::new();
    assert_eq!(registry.lookup("text-PlainText"), Some(MessageKind::TextPlainText));
    registry.register("text-PlainText", MessageKind::ImageRawAny);
    assert_eq!(registry.lookup("text-PlainText"), Some(MessageKind::ImageRawAny));
    registry.register("custom-Thing", MessageKind::ImageRgb888);
    let handler = registry.create_handler_from_topic_key("a/b/c/make87_messages-custom-Thing/x").unwrap();
    assert_eq!(handler.message_kind(), MessageKind::ImageRgb888);
    assert_eq!(registry.lookup("missing"), None);
}
