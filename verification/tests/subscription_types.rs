use twitch_eventsub::twitch::condition::Condition;
use twitch_eventsub::twitch::eventsub_types::EventSubType;

fn all_types() -> Vec<EventSubType> {
    vec![
        EventSubType::ChannelBitsUse,
        EventSubType::ChannelChatMessage,
        EventSubType::ChannelFollow,
        EventSubType::ChannelRaid,
        EventSubType::ChannelSubscribe,
    ]
}

#[test]
fn types_info_gives_names_and_versions() {
    assert_eq!(EventSubType::ChannelBitsUse.types_info(), ("channel.bits.use", 1));
    assert_eq!(EventSubType::ChannelChatMessage.types_info(), ("channel.chat.message", 1));
    assert_eq!(EventSubType::ChannelFollow.types_info(), ("channel.follow", 2));
    assert_eq!(EventSubType::ChannelRaid.types_info(), ("channel.raid", 1));
    assert_eq!(EventSubType::ChannelSubscribe.types_info(), ("channel.subscribe", 1));
}

#[test]
fn scopes_per_type() {
    assert_eq!(EventSubType::ChannelBitsUse.scopes(), &["bits:read"]);
    assert_eq!(EventSubType::ChannelChatMessage.scopes(), &["user:read:chat"]);
    assert_eq!(EventSubType::ChannelFollow.scopes(), &["moderator:read:followers"]);
    assert!(EventSubType::ChannelRaid.scopes().is_empty());
    assert_eq!(EventSubType::ChannelSubscribe.scopes(), &["channel:read:subscriptions"]);
}

#[test]
fn resolve_scopes_keeps_first_occurrences_once() {
    let types = vec![
        EventSubType::ChannelChatMessage,
        EventSubType::ChannelRaid,
        EventSubType::ChannelBitsUse,
        EventSubType::ChannelChatMessage,
        EventSubType::ChannelBitsUse,
    ];
    assert_eq!(EventSubType::resolve_scopes(&types), vec!["user:read:chat", "bits:read"]);
}

#[test]
fn resolve_scopes_of_nothing_or_raids_is_empty() {
    assert!(EventSubType::resolve_scopes(&[]).is_empty());
    assert!(EventSubType::resolve_scopes(&[EventSubType::ChannelRaid]).is_empty());
}

#[test]
fn resolve_scopes_of_every_type() {
    assert_eq!(
        EventSubType::resolve_scopes(&all_types()),
        vec![
            "bits:read",
            "user:read:chat",
            "moderator:read:followers",
            "channel:read:subscriptions"
        ]
    );
}

#[test]
fn str_to_event_type_skips_unknown_names() {
    let names: Vec<String> = vec![
        "channel.follow".to_string(),
        "channel.unknown".to_string(),
        "channel.raid".to_string(),
        "Channel.Raid".to_string(),
        "channel.follow".to_string(),
    ];
    assert_eq!(
        EventSubType::str_to_event_type(&names),
        vec![EventSubType::ChannelFollow, EventSubType::ChannelRaid, EventSubType::ChannelFollow]
    );
}

#[test]
fn str_to_event_type_of_the_names_gives_the_types_back() {
    let names: Vec<String> = all_types().iter().map(|t| t.types_info().0.to_string()).collect();
    assert_eq!(EventSubType::str_to_event_type(&names), all_types());
}

#[test]
fn from_name_denotes_each_type() {
    for t in all_types() {
        assert_eq!(EventSubType::from_name(t.types_info().0), Some(t));
    }
    assert_eq!(EventSubType::from_name(""), None);
    assert_eq!(EventSubType::from_name("channel.follow "), None);
}

fn entries(c: &Condition) -> Vec<(String, String)> {
    c.entries().clone()
}

fn pairs(v: &[(&str, &str)]) -> Vec<(String, String)> {
    v.iter().map(|(a, b)| (a.to_string(), b.to_string())).collect()
}

#[test]
fn build_condition_per_type() {
    let b = || "1234".to_string();
    let u = || "5678".to_string();
    assert_eq!(
        entries(&EventSubType::ChannelBitsUse.build_condition(b(), u())),
        pairs(&[("broadcaster_user_id", "1234")])
    );
    assert_eq!(
        entries(&EventSubType::ChannelChatMessage.build_condition(b(), u())),
        pairs(&[("broadcaster_user_id", "1234"), ("user_id", "5678")])
    );
    assert_eq!(
        entries(&EventSubType::ChannelFollow.build_condition(b(), u())),
        pairs(&[("broadcaster_user_id", "1234"), ("moderator_user_id", "5678")])
    );
    assert!(entries(&EventSubType::ChannelRaid.build_condition(b(), u())).is_empty());
    assert_eq!(
        entries(&EventSubType::ChannelSubscribe.build_condition(b(), u())),
        pairs(&[("broadcaster_user_id", "1234")])
    );
}

#[test]
fn condition_insert_replaces_and_reports_previous_value() {
    let mut c = Condition::new();
    assert_eq!(c.insert("a".to_string(), "1".to_string()), None);
    assert_eq!(c.insert("b".to_string(), "2".to_string()), None);
    assert_eq!(c.insert("a".to_string(), "3".to_string()), Some("1".to_string()));
    assert_eq!(entries(&c), pairs(&[("a", "3"), ("b", "2")]));
    assert_eq!(c.get("a"), Some(&"3".to_string()));
    assert_eq!(c.get("b"), Some(&"2".to_string()));
    assert_eq!(c.get("c"), None);
}

#[test]
fn condition_get_after_insert() {
    let mut c = EventSubType::ChannelFollow.build_condition("9".to_string(), "8".to_string());
    assert_eq!(c.get("moderator_user_id"), Some(&"8".to_string()));
    c.insert("moderator_user_id".to_string(), "7".to_string());
    assert_eq!(c.get("moderator_user_id"), Some(&"7".to_string()));
    assert_eq!(c.get("broadcaster_user_id"), Some(&"9".to_string()));
}
