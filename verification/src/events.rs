//! EventSub notification payloads and their routing.

pub mod channel_bits_use;
pub mod channel_chat_message;
pub mod channel_follow;
pub mod channel_raid;
pub mod channel_subscribe;
pub mod router;
pub mod shared_types;
