//! Routing of EventSub notifications to the handler of their subscription type.

use vstd::prelude::*;

use crate::events::channel_bits_use::TwitchBitsUse;
use crate::events::channel_chat_message::TwitchChatMessage;
use crate::events::channel_follow::TwitchFollow;
use crate::events::channel_raid::TwitchChannelRaid;
use crate::events::channel_subscribe::TwitchSubscribe;
use crate::twitch::eventsub_types::{name_roundtrip, parse_event_type, subscription_name, EventSubType};
use crate::twitch::twitch_event_sub::WSNotification;

verus! {

/// A routed notification, by subscription type.
pub enum TwitchEvent {
    BitsUse(TwitchBitsUse),
    ChatMessage(TwitchChatMessage),
    Follow(TwitchFollow),
    Raid(TwitchChannelRaid),
    Subscribe(TwitchSubscribe),
}

/// The subscription type that a notification is routed by.
pub open spec fn routed_type(notification: WSNotification) -> Option<EventSubType> {
    parse_event_type(notification.metadata.subscription_type->0@)
}

/// The subscription type whose handler a notification goes to, by the
/// notification's subscription type name; `None` for a name this service
/// does not handle. A notification must name its subscription type.
pub fn route(notification: &WSNotification) -> (r: Option<EventSubType>)
    requires
        notification.metadata.subscription_type is Some,
    ensures
        r == routed_type(*notification),
{
    match &notification.metadata.subscription_type {
        Some(event_type) => EventSubType::from_name(event_type.as_str()),
        None => None,
    }
}

/// The line logged for a notification whose type has no handler.
pub open spec fn unknown_route_text(event_type: Seq<char>) -> Seq<char> {
    "Router encountered unkown condition: "@ + event_type
}

/// The line logged for a notification whose type has no handler.
pub fn unknown_route_message(event_type: &str) -> (s: String)
    ensures
        s@ == unknown_route_text(event_type@),
{
    let mut s = String::from_str("Router encountered unkown condition: ");
    s.append(event_type);
    s
}

/// A notification that names a subscription type's name is routed to
/// that type's handler, and one that names anything else to none.
pub proof fn routes_by_subscription_name(notification: WSNotification, t: EventSubType)
    requires
        notification.metadata.subscription_type is Some,
    ensures
        notification.metadata.subscription_type->0@ == subscription_name(t) ==> routed_type(
            notification,
        ) == Some(t),
        routed_type(notification) == Some(t) ==> notification.metadata.subscription_type->0@
            == subscription_name(t),
{
    name_roundtrip(t, notification.metadata.subscription_type->0@);
}

} // verus!
