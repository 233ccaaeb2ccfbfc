//! `channel.bits.use` notifications
//! (see <https://dev.twitch.tv/docs/eventsub/eventsub-subscription-types/#channelbitsuse>).

use vstd::prelude::*;

use crate::events::shared_types::{Message, Subscription};

verus! {

/// A `channel.bits.use` notification payload.
pub struct TwitchBitsUse {
    pub event: Event,
    pub subscription: Subscription,
}

/// The event of a `channel.bits.use` notification.
pub struct Event {
    pub user_id: String,
    pub user_name: String,
    pub broadcaster_user_id: String,
    pub broadcaster_user_name: String,
    pub bits: u32,
    /// How the bits were used (`type` on the wire).
    pub kind: String,
    pub power_up: Option<String>,
    pub custom_power_up: Option<String>,
    pub message: Message,
}

} // verus!
