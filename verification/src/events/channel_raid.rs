//! `channel.raid` notifications
//! (see <https://dev.twitch.tv/docs/eventsub/eventsub-subscription-types/#channelraid>).

use vstd::prelude::*;

use crate::events::shared_types::Subscription;

verus! {

/// A `channel.raid` notification payload.
pub struct TwitchChannelRaid {
    pub event: Event,
    pub subscription: Subscription,
}

/// The event of a `channel.raid` notification.
pub struct Event {
    pub from_broadcaster_user_id: String,
    pub from_broadcaster_user_name: String,
    pub to_broadcaster_user_id: String,
    pub to_broadcaster_user_name: String,
    pub viewers: u32,
}

} // verus!
