use twitch_eventsub::twitch::authentication::{TwitchAuthenticator, TwitchUserData, TwitchUsersResponse};
use twitch_eventsub::twitch::eventsub_types::EventSubType;
use twitch_eventsub::twitch::twitch_event_sub::{SubscriptionReport, TwitchEventSub, WSMetadata, WsAction};

fn meta(message_type: &str) -> WSMetadata {
    WSMetadata {
        message_id: "m1".to_string(),
        message_type: message_type.to_string(),
        message_timestamp: "2024-01-01T00:00:00Z".to_string(),
        subscription_type: None,
    }
}

const WELCOME: &str = r#"{"metadata":{"message_id":"m1","message_type":"session_welcome","message_timestamp":"t"},"payload":{"session":{"id":"AQoQexAWVYKSTIu4ec_2VAxyuhAB","status":"connected"}}}"#;

#[test]
fn new_session_has_no_id() {
    assert!(TwitchEventSub::new().session_id.is_none());
}

#[test]
fn welcome_stores_session_and_subscribes() {
    let mut s = TwitchEventSub::new();
    assert_eq!(s.on_message(&meta("session_welcome"), WELCOME), WsAction::Subscribe);
    assert_eq!(s.session_id, Some("AQoQexAWVYKSTIu4ec_2VAxyuhAB".to_string()));
}

#[test]
fn welcome_without_id_is_malformed() {
    let mut s = TwitchEventSub::new();
    let raw = r#"{"metadata":{},"payload":{"session":{"status":"connected"}}}"#;
    assert_eq!(s.on_message(&meta("session_welcome"), raw), WsAction::MalformedWelcome);
    assert!(s.session_id.is_none());
    assert_eq!(s.on_message(&meta("session_welcome"), "not json"), WsAction::MalformedWelcome);
}

#[test]
fn keepalive_is_skipped_and_notifications_forwarded() {
    let mut s = TwitchEventSub::new();
    s.session_id = Some("old".to_string());
    assert_eq!(s.on_message(&meta("session_keepalive"), WELCOME), WsAction::Skip);
    assert_eq!(s.on_message(&meta("notification"), WELCOME), WsAction::Forward);
    assert_eq!(s.on_message(&meta("session_reconnect"), "{}"), WsAction::Forward);
    assert_eq!(s.session_id, Some("old".to_string()));
}

#[test]
fn accept_welcome_directly() {
    let mut s = TwitchEventSub::new();
    assert_eq!(s.accept_welcome(None), WsAction::MalformedWelcome);
    assert!(s.session_id.is_none());
    assert_eq!(s.accept_welcome(Some("x".to_string())), WsAction::Subscribe);
    assert_eq!(s.session_id, Some("x".to_string()));
}

#[test]
fn subscription_request_body() {
    let mut auth = TwitchAuthenticator::new("c".to_string(), "s".to_string());
    auth.store_user_data(TwitchUsersResponse {
        data: vec![TwitchUserData { id: "77".to_string(), login: "l".to_string(), display_name: "d".to_string() }],
    })
    .unwrap();
    let mut s = TwitchEventSub::new();
    s.accept_welcome(Some("sess".to_string()));
    let body = s.subscription_request(&auth, &"1000".to_string(), &EventSubType::ChannelFollow);
    assert_eq!(body.kind, "channel.follow");
    assert_eq!(body.version, "2");
    assert_eq!(
        body.condition.entries().clone(),
        vec![
            ("broadcaster_user_id".to_string(), "1000".to_string()),
            ("moderator_user_id".to_string(), "77".to_string())
        ]
    );
    assert_eq!(body.transport.method, "websocket");
    assert_eq!(body.transport.session_id, "sess");
    let raid = s.subscription_request(&auth, &"1000".to_string(), &EventSubType::ChannelRaid);
    assert_eq!(raid.version, "1");
    assert!(raid.condition.entries().is_empty());
}

#[test]
fn report_counts_outcomes() {
    let mut r = SubscriptionReport::new();
    assert_eq!(r.summary(), "Subscription report: 0 successful, 0 failed");
    for ok in [true, false, true, true] {
        r.record(ok);
    }
    assert_eq!((r.success, r.failed), (3, 1));
    assert_eq!(r.summary(), "Subscription report: 3 successful, 1 failed");
}
