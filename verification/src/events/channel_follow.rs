//! `channel.follow` notifications
//! (see <https://dev.twitch.tv/docs/eventsub/eventsub-subscription-types/#channelfollow>).

use vstd::prelude::*;

use crate::events::shared_types::Subscription;

verus! {

/// A `channel.follow` notification payload.
pub struct TwitchFollow {
    pub event: Event,
    pub subscription: Subscription,
}

/// The event of a `channel.follow` notification.
pub struct Event {
    pub user_id: String,
    pub user_name: String,
    pub broadcaster_user_id: String,
    pub broadcaster_user_name: String,
    pub followed_at: String,
}

/// The line logged for a follow.
pub open spec fn follow_log_text(e: Event) -> Seq<char> {
    "channel.follow:: "@ + e.broadcaster_user_name@ + ":"@ + e.broadcaster_user_id@ + " :: "@
        + e.user_id@ + " :: "@ + e.user_name@ + " followed at "@ + e.followed_at@
}

impl TwitchFollow {
    /// The line logged when a follow is handled:
    /// `channel.follow:: <broadcaster name>:<broadcaster id> :: <user id> :: <user name> followed at <time>`.
    pub fn log_line(&self) -> (s: String)
        ensures
            s@ == follow_log_text(self.event),
    {
        let e = &self.event;
        let mut s = String::from_str("channel.follow:: ");
        s.append(e.broadcaster_user_name.as_str());
        s.append(":");
        s.append(e.broadcaster_user_id.as_str());
        s.append(" :: ");
        s.append(e.user_id.as_str());
        s.append(" :: ");
        s.append(e.user_name.as_str());
        s.append(" followed at ");
        s.append(e.followed_at.as_str());
        s
    }
}

} // verus!
