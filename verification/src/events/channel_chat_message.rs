//! `channel.chat.message` notifications
//! (see <https://dev.twitch.tv/docs/eventsub/eventsub-subscription-types/#channelchatmessage>).

use vstd::prelude::*;

use crate::events::shared_types::{Message, Subscription};

verus! {

/// A `channel.chat.message` notification payload.
pub struct TwitchChatMessage {
    pub event: Event,
    pub subscription: Subscription,
}

/// The event of a `channel.chat.message` notification.
pub struct Event {
    pub broadcaster_user_id: String,
    pub broadcaster_user_name: String,
    pub chatter_user_id: String,
    pub chatter_user_name: String,
    pub message_id: String,
    pub message: Message,
}

/// The line logged for a chat message.
pub open spec fn chat_log_text(e: Event) -> Seq<char> {
    "channel.chat.message:: "@ + e.broadcaster_user_name@ + ":"@ + e.broadcaster_user_id@ + " :: "@
        + e.chatter_user_id@ + " :: "@ + e.chatter_user_name@ + ": "@ + e.message.text@
}

impl TwitchChatMessage {
    /// The line logged when a chat message is handled:
    /// `channel.chat.message:: <broadcaster name>:<broadcaster id> :: <chatter id> :: <chatter name>: <text>`.
    pub fn log_line(&self) -> (s: String)
        ensures
            s@ == chat_log_text(self.event),
    {
        let e = &self.event;
        let mut s = String::from_str("channel.chat.message:: ");
        s.append(e.broadcaster_user_name.as_str());
        s.append(":");
        s.append(e.broadcaster_user_id.as_str());
        s.append(" :: ");
        s.append(e.chatter_user_id.as_str());
        s.append(" :: ");
        s.append(e.chatter_user_name.as_str());
        s.append(": ");
        s.append(e.message.text.as_str());
        s
    }
}

} // verus!
