//! Notifications and their wire record.

use vstd::prelude::*;
use crate::json::{
    entry_u64, fields_map, fields_view, get_u64, object_entries, object_text, parse_object,
    parsed_object, well_formed_fields, write_object, JsonObject,
};

verus! {

/// A notification that can be stored, associated with a given user.
///
/// Stored notifications outlive the code that wrote them, so a variant's name
/// and fields must not change in a backward-incompatible way.
///
/// When a notification is initiated by a user, `actor_id` holds that user's id.
#[derive(Debug, Clone, PartialEq, Eq, Structural)]
pub enum Notification {
    ContactRequest { actor_id: u64 },
    ContactRequestAccepted { actor_id: u64 },
    ChannelInvitation { actor_id: u64, channel_id: u64 },
    ChannelMessageMention { actor_id: u64, channel_id: u64, message_id: u64 },
}

/// The flat record in which a notification is sent and stored.
pub struct WireNotification {
    /// The name of the variant.
    pub kind: String,
    /// The actor's id, kept out of `content`.
    pub actor_id: Option<u64>,
    /// A JSON object holding every other field.
    pub content: String,
}

/// The name of a notification's variant.
pub open spec fn kind_of(n: Notification) -> Seq<char> {
    match n {
        Notification::ContactRequest { .. } => "ContactRequest"@,
        Notification::ContactRequestAccepted { .. } => "ContactRequestAccepted"@,
        Notification::ChannelInvitation { .. } => "ChannelInvitation"@,
        Notification::ChannelMessageMention { .. } => "ChannelMessageMention"@,
    }
}

/// The actor of a notification.
pub open spec fn actor_of(n: Notification) -> u64 {
    match n {
        Notification::ContactRequest { actor_id } => actor_id,
        Notification::ContactRequestAccepted { actor_id } => actor_id,
        Notification::ChannelInvitation { actor_id, .. } => actor_id,
        Notification::ChannelMessageMention { actor_id, .. } => actor_id,
    }
}

/// The fields of a notification other than its kind and actor, by name in
/// ascending order.
pub open spec fn content_fields(n: Notification) -> Seq<(Seq<char>, u64)> {
    match n {
        Notification::ContactRequest { .. } => seq![],
        Notification::ContactRequestAccepted { .. } => seq![],
        Notification::ChannelInvitation { channel_id, .. } => seq![("channel_id"@, channel_id)],
        Notification::ChannelMessageMention { channel_id, message_id, .. } => seq![
            ("channel_id"@, channel_id),
            ("message_id"@, message_id),
        ],
    }
}

/// The names of the variants, in declaration order.
pub open spec fn variant_names() -> Seq<Seq<char>> {
    seq![
        "ContactRequest"@,
        "ContactRequestAccepted"@,
        "ChannelInvitation"@,
        "ChannelMessageMention"@,
    ]
}

/// The notification that a kind, an actor and the members of an object make:
/// the wire actor takes precedence over an `actor_id` member, members that the
/// variant does not have are ignored, and an unknown kind, or a missing or
/// non-integer field, gives `None`.
pub open spec fn notification_of(
    kind: Seq<char>,
    actor_id: Option<u64>,
    entries: Map<Seq<char>, Option<u64>>,
) -> Option<Notification> {
    let actor = if actor_id is Some { actor_id } else { entry_u64(entries, "actor_id"@) };
    let channel = entry_u64(entries, "channel_id"@);
    let message = entry_u64(entries, "message_id"@);
    match actor {
        None => None,
        Some(a) => if kind == "ContactRequest"@ {
            Some(Notification::ContactRequest { actor_id: a })
        } else if kind == "ContactRequestAccepted"@ {
            Some(Notification::ContactRequestAccepted { actor_id: a })
        } else if kind == "ChannelInvitation"@ {
            match channel {
                Some(c) => Some(Notification::ChannelInvitation { actor_id: a, channel_id: c }),
                None => None,
            }
        } else if kind == "ChannelMessageMention"@ {
            match (channel, message) {
                (Some(c), Some(m)) => Some(
                    Notification::ChannelMessageMention { actor_id: a, channel_id: c, message_id: m },
                ),
                _ => None,
            }
        } else {
            None
        },
    }
}

/// What decoding a wire record gives: `None` where its content is not a JSON
/// object, else the notification that its parts make.
pub open spec fn decoded(kind: Seq<char>, actor_id: Option<u64>, content: Seq<char>) -> Option<Notification> {
    match parsed_object(content) {
        None => None,
        Some(entries) => notification_of(kind, actor_id, entries),
    }
}

/// Whether two strings hold the same text.
fn same_text(a: &str, b: &str) -> (r: bool)
    ensures
        r == (a@ == b@),
{
    a.to_owned() == b.to_owned()
}

impl Notification {
    /// Encodes the notification: the kind and the actor go to their own
    /// fields, every other field to the JSON object in `content`.
    pub fn to_proto(&self) -> (r: WireNotification)
        ensures
            r.kind@ == kind_of(*self),
            r.actor_id == Some(actor_of(*self)),
            r.content@ == object_text(content_fields(*self)),
    {
        proof {
            reveal_strlit("channel_id");
            reveal_strlit("message_id");
        }
        match self {
            Notification::ContactRequest { actor_id } => {
                let fields: Vec<(&str, u64)> = Vec::new();
                assert(fields_view(fields@) =~= content_fields(*self));
                WireNotification {
                    kind: "ContactRequest".to_owned(),
                    actor_id: Some(*actor_id),
                    content: write_object(&fields),
                }
            },
            Notification::ContactRequestAccepted { actor_id } => {
                let fields: Vec<(&str, u64)> = Vec::new();
                assert(fields_view(fields@) =~= content_fields(*self));
                WireNotification {
                    kind: "ContactRequestAccepted".to_owned(),
                    actor_id: Some(*actor_id),
                    content: write_object(&fields),
                }
            },
            Notification::ChannelInvitation { actor_id, channel_id } => {
                let fields: Vec<(&str, u64)> = vec![("channel_id", *channel_id)];
                assert(fields_view(fields@) =~= content_fields(*self));
                WireNotification {
                    kind: "ChannelInvitation".to_owned(),
                    actor_id: Some(*actor_id),
                    content: write_object(&fields),
                }
            },
            Notification::ChannelMessageMention { actor_id, channel_id, message_id } => {
                let fields: Vec<(&str, u64)> = vec![("channel_id", *channel_id), ("message_id", *message_id)];
                assert(fields_view(fields@) =~= content_fields(*self));
                WireNotification {
                    kind: "ChannelMessageMention".to_owned(),
                    actor_id: Some(*actor_id),
                    content: write_object(&fields),
                }
            },
        }
    }
    /// Decodes the notification that a kind, an actor and a parsed content
    /// object make: the wire actor takes precedence over an `actor_id` member,
    /// and members that the variant does not have are ignored.
    pub fn from_object(kind: &str, actor_id: Option<u64>, object: &JsonObject) -> (r: Option<
        Notification,
    >)
        ensures
            r == notification_of(kind@, actor_id, object_entries(*object)),
    {
        let actor = match actor_id {
            Some(a) => Some(a),
            None => get_u64(object, "actor_id"),
        };
        let channel = get_u64(object, "channel_id");
        let message = get_u64(object, "message_id");
        let a = match actor {
            Some(a) => a,
            None => return None,
        };
        if same_text(kind, "ContactRequest") {
            Some(Notification::ContactRequest { actor_id: a })
        } else if same_text(kind, "ContactRequestAccepted") {
            Some(Notification::ContactRequestAccepted { actor_id: a })
        } else if same_text(kind, "ChannelInvitation") {
            match channel {
                Some(c) => Some(Notification::ChannelInvitation { actor_id: a, channel_id: c }),
                None => None,
            }
        } else if same_text(kind, "ChannelMessageMention") {
            match (channel, message) {
                (Some(c), Some(m)) => Some(
                    Notification::ChannelMessageMention { actor_id: a, channel_id: c, message_id: m },
                ),
                _ => None,
            }
        } else {
            None
        }
    }

    /// Decodes a wire record. Gives `None` where the content is not a JSON
    /// object, the kind is not the name of a variant, or a field of that
    /// variant is missing or is not an unsigned integer.
    pub fn from_proto(notification: &WireNotification) -> (r: Option<Notification>)
        ensures
            r == decoded(notification.kind@, notification.actor_id, notification.content@),
            !variant_names().contains(notification.kind@) ==> r is None,
            parsed_object(notification.content@) is None ==> r is None,
            forall|fields: Seq<(Seq<char>, u64)>|
                well_formed_fields(fields) && notification.content@ == #[trigger] object_text(fields)
                    ==> r == notification_of(notification.kind@, notification.actor_id, fields_map(fields)),
    {
        proof {
            if !variant_names().contains(notification.kind@) {
                lemma_unknown_kind_rejected(notification.kind@, notification.actor_id);
            }
        }
        match parse_object(notification.content.as_str()) {
            Some(object) => Notification::from_object(notification.kind.as_str(), notification.actor_id, &object),
            None => None,
        }
    }

    /// The names of the variants, in declaration order.
    pub fn all_variant_names() -> (r: &'static [&'static str])
        ensures
            r@.map_values(|s: &str| s@) == variant_names(),
    {
        let r: &'static [&'static str] = &[
            "ContactRequest",
            "ContactRequestAccepted",
            "ChannelInvitation",
            "ChannelMessageMention",
        ];
        assert(r@.map_values(|s: &str| s@) =~= variant_names());
        r
    }
}

/// A kind that names no variant decodes to nothing, whatever the actor and
/// the content.
pub proof fn lemma_unknown_kind_rejected(kind: Seq<char>, actor_id: Option<u64>)
    requires
        !variant_names().contains(kind),
    ensures
        forall|entries: Map<Seq<char>, Option<u64>>| #[trigger] notification_of(kind, actor_id, entries) is None,
        forall|content: Seq<char>| #[trigger] decoded(kind, actor_id, content) is None,
{
    assert(variant_names()[0] == "ContactRequest"@);
    assert(variant_names()[1] == "ContactRequestAccepted"@);
    assert(variant_names()[2] == "ChannelInvitation"@);
    assert(variant_names()[3] == "ChannelMessageMention"@);
}

/// Decoding gives back what encoding wrote: the members that encoding puts in
/// `content` are well formed, and with the kind and the actor they make the
/// notification again.
pub proof fn lemma_round_trip(n: Notification)
    ensures
        well_formed_fields(content_fields(n)),
        notification_of(kind_of(n), Some(actor_of(n)), fields_map(content_fields(n))) == Some(n),
{
    reveal_strlit("ContactRequest");
    reveal_strlit("ContactRequestAccepted");
    reveal_strlit("ChannelInvitation");
    reveal_strlit("ChannelMessageMention");
    reveal_strlit("channel_id");
    reveal_strlit("message_id");
    let f = content_fields(n);
    match n {
        Notification::ChannelInvitation { channel_id, .. } => {
            assert(f.drop_last() =~= Seq::<(Seq<char>, u64)>::empty());
            assert(fields_map(f.drop_last()) == Map::<Seq<char>, Option<u64>>::empty());
            assert(f.last() == ("channel_id"@, channel_id));
            assert(fields_map(f) == Map::<Seq<char>, Option<u64>>::empty().insert(
                "channel_id"@,
                Some(channel_id),
            ));
            assert(entry_u64(fields_map(f), "channel_id"@) == Some(channel_id));
            assert("ChannelInvitation"@.len() != "ContactRequest"@.len());
            assert("ChannelInvitation"@.len() != "ContactRequestAccepted"@.len());
        },
        Notification::ChannelMessageMention { channel_id, message_id, .. } => {
            assert(f.drop_last().drop_last() =~= Seq::<(Seq<char>, u64)>::empty());
            assert(f.drop_last() =~= seq![f[0]]);
            assert(fields_map(f.drop_last().drop_last()) == Map::<Seq<char>, Option<u64>>::empty());
            assert(f.drop_last().last() == ("channel_id"@, channel_id));
            assert(f.last() == ("message_id"@, message_id));
            assert(fields_map(f.drop_last()) == Map::<Seq<char>, Option<u64>>::empty().insert(
                "channel_id"@,
                Some(channel_id),
            ));
            assert("channel_id"@[0] != "message_id"@[0]);
            assert(fields_map(f) == Map::<Seq<char>, Option<u64>>::empty().insert(
                "channel_id"@,
                Some(channel_id),
            ).insert("message_id"@, Some(message_id)));
            assert(entry_u64(fields_map(f), "channel_id"@) == Some(channel_id));
            assert(entry_u64(fields_map(f), "message_id"@) == Some(message_id));
            assert("ChannelMessageMention"@.len() != "ContactRequest"@.len());
            assert("ChannelMessageMention"@.len() != "ContactRequestAccepted"@.len());
            assert("ChannelMessageMention"@.len() != "ChannelInvitation"@.len());
        },
        Notification::ContactRequestAccepted { .. } => {
            assert("ContactRequestAccepted"@.len() != "ContactRequest"@.len());
        },
        Notification::ContactRequest { .. } => {},
    }
}

/// The content that encoding writes has neither a `kind` nor an `actor_id`
/// member.
pub proof fn lemma_no_duplicated_fields(n: Notification)
    ensures
        forall|i: int|
            0 <= i < content_fields(n).len() ==> #[trigger] content_fields(n)[i].0 != "kind"@
                && content_fields(n)[i].0 != "actor_id"@,
{
    reveal_strlit("channel_id");
    reveal_strlit("message_id");
    reveal_strlit("actor_id");
    reveal_strlit("kind");
    assert("channel_id"@.len() != "kind"@.len() && "channel_id"@.len() != "actor_id"@.len());
    assert("message_id"@.len() != "kind"@.len() && "message_id"@.len() != "actor_id"@.len());
}

/// A notification whose only field is its actor encodes to the empty object.
pub proof fn lemma_minimal_payload(n: Notification)
    requires
        n is ContactRequest || n is ContactRequestAccepted,
    ensures
        object_text(content_fields(n)) == "{}"@,
{
    reveal_strlit("{}");
    assert(object_text(content_fields(n)) =~= "{}"@);
}

} // verus!
