//! `channel.subscribe` notifications
//! (see <https://dev.twitch.tv/docs/eventsub/eventsub-subscription-types/#channelsubscribe>).

use vstd::prelude::*;

use crate::events::shared_types::Subscription;
use crate::strings::{bool_text, bool_to_text};

verus! {

/// A `channel.subscribe` notification payload.
pub struct TwitchSubscribe {
    pub event: Event,
    pub subscription: Subscription,
}

/// The event of a `channel.subscribe` notification.
pub struct Event {
    pub user_id: String,
    pub user_name: String,
    pub broadcaster_user_id: String,
    pub broadcaster_user_name: String,
    pub tier: String,
    pub is_gift: bool,
}

/// The line logged for a subscription.
pub open spec fn subscribe_log_text(e: Event) -> Seq<char> {
    "channel.subscribe:: "@ + e.broadcaster_user_name@ + ":"@ + e.broadcaster_user_id@ + " :: "@
        + e.user_id@ + " :: "@ + e.user_name@ + " subscribed at tier "@ + e.tier@ + " (is_gift: "@
        + bool_text(e.is_gift) + ")"@
}

impl TwitchSubscribe {
    /// The line logged when a subscription is handled:
    /// `channel.subscribe:: <broadcaster name>:<broadcaster id> :: <user id> :: <user name> subscribed at tier <tier> (is_gift: <true|false>)`.
    pub fn log_line(&self) -> (s: String)
        ensures
            s@ == subscribe_log_text(self.event),
    {
        let e = &self.event;
        let mut s = String::from_str("channel.subscribe:: ");
        s.append(e.broadcaster_user_name.as_str());
        s.append(":");
        s.append(e.broadcaster_user_id.as_str());
        s.append(" :: ");
        s.append(e.user_id.as_str());
        s.append(" :: ");
        s.append(e.user_name.as_str());
        s.append(" subscribed at tier ");
        s.append(e.tier.as_str());
        s.append(" (is_gift: ");
        let gift = bool_to_text(e.is_gift);
        s.append(gift.as_str());
        s.append(")");
        s
    }
}

} // verus!
