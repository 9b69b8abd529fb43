//! The exact texts the relay puts on the wire: filter verdicts, escaping,
//! and every reply and frame builder.

use trcd::filter::UserActiveChannel;
use trcd::session::{
    channel_changed_reply, channel_too_long_reply, invalid_token_reply, unsupported_close_reason,
    welcome_reply, CLOSE_CODE_UNSUPPORTED, MAX_CHANNEL_NAME_LENGTH_BYTES,
};
use trcd::socket_server::{SocketMessage, UpdateType};
use trcd::user::{User, UserMode, UserPermissions};

#[test]
fn matches_is_total_and_exact() {
    let named = UserActiveChannel::Named("general".to_string());
    assert!(named.matches("general"));
    assert!(!named.matches("General"));
    assert!(!named.matches("general "));
    assert!(!named.matches(""));

    let all = UserActiveChannel::All;
    assert!(all.matches("general"));
    assert!(all.matches(""));
    assert!(all.matches("anything at all"));

    let none = UserActiveChannel::NoChannel;
    assert!(!none.matches("general"));
    assert!(!none.matches(""));
}

#[test]
fn named_empty_string_is_not_no_channel() {
    // Subscribing to the empty-string channel is a real subscription, not
    // the "deliver nothing" state.
    let named_empty = UserActiveChannel::Named(String::new());
    assert!(named_empty.matches(""));
    assert!(!named_empty.matches("general"));
}

#[test]
fn reply_texts_are_exact() {
    assert_eq!(welcome_reply(), "{\"error\": false, \"value\": \"welcome\"}");
    assert_eq!(
        invalid_token_reply(),
        "{\"error\":true,\"value\":\"invalid token\"}"
    );
    assert_eq!(
        channel_too_long_reply(),
        "{\"content\":\"Channel name too long in bytes. Max is 120\",\"error\":true,\"value\":null}"
    );
    assert_eq!(
        unsupported_close_reason(),
        "This server supports pings and text (utf-8 formatted)."
    );
    assert_eq!(CLOSE_CODE_UNSUPPORTED, 1003);
    assert_eq!(MAX_CHANNEL_NAME_LENGTH_BYTES, 120);
}

#[test]
fn channel_changed_reply_echoes_payload() {
    assert_eq!(
        channel_changed_reply("general"),
        "{\"content\":\"successfully changed channel\",\"error\":false,\"value\":{\"String\":\"general\"}}"
    );
}

#[test]
fn channel_changed_reply_escapes_payload() {
    assert_eq!(
        channel_changed_reply("a\"b\\c\nd"),
        "{\"content\":\"successfully changed channel\",\"error\":false,\"value\":{\"String\":\"a\\\"b\\\\c\\nd\"}}"
    );
    // Control characters outside the short escapes become \u00.. sequences.
    assert_eq!(
        channel_changed_reply("\u{1}\u{1f}"),
        "{\"content\":\"successfully changed channel\",\"error\":false,\"value\":{\"String\":\"\\u0001\\u001f\"}}"
    );
}

#[test]
fn socket_message_serializes_full_sender() {
    let frame = SocketMessage {
        message_type: UpdateType::MESSAGE,
        content: "hi there".to_string(),
        sender: Some(User {
            user_type: UserMode::Bot,
            permission_level: UserPermissions::Admin,
            username: "The \"Bot\"".to_string(),
            handle: "bot".to_string(),
            provider_site: Some("example.org".to_string()),
            banned: true,
        }),
    };
    assert_eq!(
        frame.to_json(),
        "{\"message_type\":\"MESSAGE\",\"content\":\"hi there\",\"sender\":{\"user_type\":\"Bot\",\"permission_level\":\"Admin\",\"username\":\"The \\\"Bot\\\"\",\"handle\":\"bot\",\"provider_site\":\"example.org\",\"banned\":true}}"
    );
}

#[test]
fn socket_message_without_sender_serializes_null() {
    let frame = SocketMessage {
        message_type: UpdateType::SYSTEM,
        content: "notice".to_string(),
        sender: None,
    };
    assert_eq!(
        frame.to_json(),
        "{\"message_type\":\"SYSTEM\",\"content\":\"notice\",\"sender\":null}"
    );
}

#[test]
fn wire_output_agrees_with_reference_serializer() {
    // The hand-built frame must be exactly what the ecosystem's JSON
    // serializer would produce for the same value, including escaping.
    let content = "tricky \"quotes\" and \\slashes\\ and \u{7}bells";
    let frame = SocketMessage {
        message_type: UpdateType::MESSAGE,
        content: content.to_string(),
        sender: None,
    };
    let escaped = serde_json::to_string(&serde_json::Value::String(content.to_string())).unwrap();
    let expected = format!(
        "{{\"message_type\":\"MESSAGE\",\"content\":{},\"sender\":null}}",
        escaped
    );
    assert_eq!(frame.to_json(), expected);
}

#[test]
fn message_sender_projects_public_fields() {
    let user = User {
        user_type: UserMode::User,
        permission_level: UserPermissions::Moderator,
        username: "Jo".to_string(),
        handle: "jo".to_string(),
        provider_site: None,
        banned: false,
    };
    let public = user.message_sender();
    assert_eq!(public.name, "Jo");
    assert_eq!(public.handle, "jo");
    assert_eq!(public.provider, "");

    let with_site = User {
        provider_site: Some("example.net".to_string()),
        ..user
    };
    let public = with_site.message_sender();
    assert_eq!(public.provider, "example.net");
}
