//! Routing of Twitch EventSub notifications: which subscription types exist,
//! what each needs (scopes, conditions, request bodies), how incoming
//! websocket messages are handled and how notifications are routed.

pub mod config;
pub mod events;
pub mod json;
pub mod strings;
pub mod twitch;
