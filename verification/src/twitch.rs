//! Talking to Twitch: subscription types, login, and the EventSub websocket.

pub mod authentication;
pub mod condition;
pub mod eventsub_types;
pub mod twitch_event_sub;
