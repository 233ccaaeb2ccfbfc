use twitch_eventsub::events::channel_chat_message::{Event as ChatEvent, TwitchChatMessage};
use twitch_eventsub::events::channel_follow::{Event as FollowEvent, TwitchFollow};
use twitch_eventsub::events::channel_subscribe::{Event as SubEvent, TwitchSubscribe};
use twitch_eventsub::events::router::{route, unknown_route_message};
use twitch_eventsub::events::shared_types::{Message, Subscription};
use twitch_eventsub::twitch::eventsub_types::EventSubType;
use twitch_eventsub::twitch::twitch_event_sub::{WSMetadata, WSNotification};

fn notification(subscription_type: &str) -> WSNotification {
    WSNotification {
        metadata: WSMetadata {
            message_id: "id".to_string(),
            message_type: "notification".to_string(),
            message_timestamp: "t".to_string(),
            subscription_type: Some(subscription_type.to_string()),
        },
        payload: serde_json::Value::Null,
    }
}

fn subscription(kind: &str) -> Subscription {
    Subscription {
        id: "sub".to_string(),
        kind: kind.to_string(),
        version: "1".to_string(),
        cost: 0,
        created_at: "2024".to_string(),
    }
}

#[test]
fn routes_each_known_type() {
    assert_eq!(route(&notification("channel.bits.use")), Some(EventSubType::ChannelBitsUse));
    assert_eq!(route(&notification("channel.chat.message")), Some(EventSubType::ChannelChatMessage));
    assert_eq!(route(&notification("channel.follow")), Some(EventSubType::ChannelFollow));
    assert_eq!(route(&notification("channel.raid")), Some(EventSubType::ChannelRaid));
    assert_eq!(route(&notification("channel.subscribe")), Some(EventSubType::ChannelSubscribe));
}

#[test]
fn unknown_types_are_not_routed() {
    assert_eq!(route(&notification("channel.update")), None);
    assert_eq!(
        unknown_route_message("channel.update"),
        "Router encountered unkown condition: channel.update"
    );
}

#[test]
fn follow_log_line() {
    let f = TwitchFollow {
        event: FollowEvent {
            user_id: "1".to_string(),
            user_name: "alice".to_string(),
            broadcaster_user_id: "2".to_string(),
            broadcaster_user_name: "bob".to_string(),
            followed_at: "2024-05-01".to_string(),
        },
        subscription: subscription("channel.follow"),
    };
    assert_eq!(f.log_line(), "channel.follow:: bob:2 :: 1 :: alice followed at 2024-05-01");
}

#[test]
fn chat_log_line() {
    let m = TwitchChatMessage {
        event: ChatEvent {
            broadcaster_user_id: "2".to_string(),
            broadcaster_user_name: "bob".to_string(),
            chatter_user_id: "3".to_string(),
            chatter_user_name: "carol".to_string(),
            message_id: "m".to_string(),
            message: Message { text: "hello there".to_string(), fragments: vec![] },
        },
        subscription: subscription("channel.chat.message"),
    };
    assert_eq!(m.log_line(), "channel.chat.message:: bob:2 :: 3 :: carol: hello there");
}

#[test]
fn subscribe_log_line() {
    let s = TwitchSubscribe {
        event: SubEvent {
            user_id: "4".to_string(),
            user_name: "dave".to_string(),
            broadcaster_user_id: "2".to_string(),
            broadcaster_user_name: "bob".to_string(),
            tier: "1000".to_string(),
            is_gift: true,
        },
        subscription: subscription("channel.subscribe"),
    };
    assert_eq!(
        s.log_line(),
        "channel.subscribe:: bob:2 :: 4 :: dave subscribed at tier 1000 (is_gift: true)"
    );
}
