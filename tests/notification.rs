use notification_codec::{JsonObject, Notification, WireNotification};

fn wire(kind: &str, actor_id: Option<u64>, content: &str) -> WireNotification {
    WireNotification { kind: kind.to_string(), actor_id, content: content.to_string() }
}

#[test]
fn test_notification() {
    // Notifications can be serialized and deserialized.
    for notification in [
        Notification::ContactRequest { actor_id: 1 },
        Notification::ContactRequestAccepted { actor_id: 2 },
        Notification::ChannelInvitation { actor_id: 0, channel_id: 100 },
        Notification::ChannelMessageMention { actor_id: 200, channel_id: 30, message_id: 1 },
    ] {
        let message = notification.to_proto();
        let deserialized = Notification::from_proto(&message).unwrap();
        assert_eq!(deserialized, notification);
    }

    // When notifications are serialized, the `kind` and `actor_id` fields are
    // stored separately, and do not appear redundantly in the JSON.
    let notification = Notification::ContactRequest { actor_id: 1 };
    assert_eq!(notification.to_proto().content, "{}");
}

#[test]
fn channel_invitation_encodes_exactly() {
    let n = Notification::ChannelInvitation { actor_id: 0, channel_id: 100 };
    let w = n.to_proto();
    assert_eq!(w.kind, "ChannelInvitation");
    assert_eq!(w.actor_id, Some(0));
    assert_eq!(w.content, "{\"channel_id\":100}");
    assert_eq!(Notification::from_proto(&w), Some(n));
}

#[test]
fn mention_content_lists_members_in_order() {
    let n = Notification::ChannelMessageMention { actor_id: 200, channel_id: 30, message_id: 1 };
    let w = n.to_proto();
    assert_eq!(w.kind, "ChannelMessageMention");
    assert_eq!(w.actor_id, Some(200));
    assert_eq!(w.content, "{\"channel_id\":30,\"message_id\":1}");
}

#[test]
fn largest_ids_round_trip() {
    let n = Notification::ChannelMessageMention {
        actor_id: u64::MAX,
        channel_id: u64::MAX,
        message_id: u64::MAX,
    };
    let w = n.to_proto();
    assert_eq!(
        w.content,
        "{\"channel_id\":18446744073709551615,\"message_id\":18446744073709551615}"
    );
    assert_eq!(Notification::from_proto(&w), Some(n));
}

#[test]
fn actor_only_variants_have_empty_content() {
    let w = Notification::ContactRequestAccepted { actor_id: 7 }.to_proto();
    assert_eq!(w.kind, "ContactRequestAccepted");
    assert_eq!(w.actor_id, Some(7));
    assert_eq!(w.content, "{}");
}

#[test]
fn content_never_repeats_kind_or_actor() {
    for n in [
        Notification::ContactRequest { actor_id: 5 },
        Notification::ChannelInvitation { actor_id: 5, channel_id: 6 },
        Notification::ChannelMessageMention { actor_id: 5, channel_id: 6, message_id: 7 },
    ] {
        let content = n.to_proto().content;
        assert!(!content.contains("kind"));
        assert!(!content.contains("actor_id"));
    }
}

#[test]
fn unknown_kind_is_rejected() {
    assert_eq!(Notification::from_proto(&wire("FriendRequest", Some(1), "{}")), None);
    assert_eq!(Notification::from_proto(&wire("contactrequest", Some(1), "{}")), None);
    assert_eq!(Notification::from_proto(&wire("", Some(1), "{}")), None);
}

#[test]
fn malformed_content_is_rejected() {
    assert_eq!(Notification::from_proto(&wire("ContactRequest", Some(1), "{")), None);
    assert_eq!(Notification::from_proto(&wire("ContactRequest", Some(1), "")), None);
    assert_eq!(Notification::from_proto(&wire("ContactRequest", Some(1), "[]")), None);
    assert_eq!(Notification::from_proto(&wire("ContactRequest", Some(1), "5")), None);
    assert_eq!(Notification::from_proto(&wire("ContactRequest", Some(1), "\"x\"")), None);
    assert_eq!(Notification::from_proto(&wire("ContactRequest", Some(1), "null")), None);
}

#[test]
fn missing_or_mistyped_field_is_rejected() {
    assert_eq!(Notification::from_proto(&wire("ChannelInvitation", Some(1), "{}")), None);
    assert_eq!(
        Notification::from_proto(&wire("ChannelInvitation", Some(1), "{\"channel_id\":\"9\"}")),
        None
    );
    assert_eq!(
        Notification::from_proto(&wire("ChannelInvitation", Some(1), "{\"channel_id\":-9}")),
        None
    );
    assert_eq!(
        Notification::from_proto(&wire("ChannelInvitation", Some(1), "{\"channel_id\":9.5}")),
        None
    );
    assert_eq!(
        Notification::from_proto(&wire("ChannelMessageMention", Some(1), "{\"channel_id\":9}")),
        None
    );
    assert_eq!(Notification::from_proto(&wire("ContactRequest", None, "{}")), None);
}

#[test]
fn actor_may_come_from_content() {
    assert_eq!(
        Notification::from_proto(&wire("ContactRequest", None, "{\"actor_id\":4}")),
        Some(Notification::ContactRequest { actor_id: 4 })
    );
    // The wire actor takes precedence over a member of the content.
    assert_eq!(
        Notification::from_proto(&wire("ContactRequest", Some(3), "{\"actor_id\":4}")),
        Some(Notification::ContactRequest { actor_id: 3 })
    );
}

#[test]
fn extra_members_are_ignored() {
    assert_eq!(
        Notification::from_proto(&wire(
            "ChannelInvitation",
            Some(2),
            " { \"channel_id\" : 8 , \"message_id\" : 1, \"kind\": \"ContactRequest\" } "
        )),
        Some(Notification::ChannelInvitation { actor_id: 2, channel_id: 8 })
    );
}

#[test]
fn decode_from_parsed_object() {
    let mut object = JsonObject::new();
    object.insert("channel_id".to_string(), serde_json::Value::from(12u64));
    object.insert("message_id".to_string(), serde_json::Value::from(34u64));
    assert_eq!(
        Notification::from_object("ChannelMessageMention", Some(56), &object),
        Some(Notification::ChannelMessageMention { actor_id: 56, channel_id: 12, message_id: 34 })
    );
    assert_eq!(
        Notification::from_object("ChannelInvitation", None, &object),
        None
    );
    object.insert("actor_id".to_string(), serde_json::Value::from(78u64));
    assert_eq!(
        Notification::from_object("ChannelInvitation", None, &object),
        Some(Notification::ChannelInvitation { actor_id: 78, channel_id: 12 })
    );
    assert_eq!(Notification::from_object("Other", Some(1), &object), None);
}

#[test]
fn variant_names_are_listed_in_order() {
    let expected = [
        "ContactRequest",
        "ContactRequestAccepted",
        "ChannelInvitation",
        "ChannelMessageMention",
    ];
    assert_eq!(Notification::all_variant_names(), expected);
    assert_eq!(Notification::all_variant_names(), Notification::all_variant_names());
}
