use twitch_eventsub::twitch::authentication::{
    auth_callback, find_code, AuthCallback, TwitchAuthenticator, TwitchOauthTokenResponse,
    TwitchUserData, TwitchUsersResponse,
};
use twitch_eventsub::twitch::eventsub_types::EventSubType;

fn auth() -> TwitchAuthenticator {
    TwitchAuthenticator::new("client".to_string(), "s3cret".to_string())
}

fn user(id: &str) -> TwitchUserData {
    TwitchUserData { id: id.to_string(), login: "login".to_string(), display_name: "Name".to_string() }
}

fn pairs(v: &[(&str, &str)]) -> Vec<(String, String)> {
    v.iter().map(|(a, b)| (a.to_string(), b.to_string())).collect()
}

#[test]
fn new_authenticator_has_no_tokens() {
    let a = auth();
    assert_eq!(a.client_id, "client");
    assert_eq!(a.client_secret(), "s3cret");
    assert_eq!(a.redirect_uri(), "http://localhost:5000/auth");
    assert!(a.access_token.is_none());
    assert!(a.refresh_token().is_none());
    assert!(a.expires_in().is_none());
    assert!(a.user_data.is_none());
}

#[test]
fn authorize_pairs_carry_client_and_scopes() {
    let a = auth();
    assert_eq!(
        a.authorize_pairs(&vec!["bits:read", "user:read:chat"]),
        pairs(&[
            ("client_id", "client"),
            ("redirect_uri", "http://localhost:5000/auth"),
            ("response_type", "code"),
            ("scope", "bits:read user:read:chat"),
        ])
    );
}

#[test]
fn authorization_url_is_form_encoded() {
    let a = auth();
    let url = a
        .authorization_url(&[EventSubType::ChannelBitsUse, EventSubType::ChannelRaid, EventSubType::ChannelChatMessage])
        .unwrap();
    assert_eq!(
        url,
        "https://id.twitch.tv/oauth2/authorize?client_id=client&redirect_uri=http%3A%2F%2Flocalhost%3A5000%2Fauth&response_type=code&scope=bits%3Aread+user%3Aread%3Achat"
    );
}

#[test]
fn authorization_url_without_scopes() {
    let a = auth();
    let url = a.authorization_url(&[EventSubType::ChannelRaid]).unwrap();
    assert!(url.ends_with("&response_type=code&scope="));
}

#[test]
fn callback_with_code() {
    match auth_callback("/auth?code=abc123&scope=bits%3Aread") {
        AuthCallback::Code(c) => assert_eq!(c, "abc123"),
        _ => panic!("expected a code"),
    }
}

#[test]
fn callback_code_is_decoded() {
    match auth_callback("/auth?scope=x&code=a%20b") {
        AuthCallback::Code(c) => assert_eq!(c, "a b"),
        _ => panic!("expected a code"),
    }
}

#[test]
fn callback_without_code() {
    assert!(matches!(auth_callback("/favicon.ico"), AuthCallback::NoCode));
    assert!(matches!(auth_callback("/auth?xcode=1"), AuthCallback::CodeMissing));
    assert!(matches!(auth_callback("/auth?state=code=1"), AuthCallback::CodeMissing));
}

#[test]
fn callback_with_unreadable_url() {
    assert!(matches!(auth_callback(":99999?code=1"), AuthCallback::Malformed));
}

#[test]
fn find_code_takes_the_first() {
    assert_eq!(find_code(&pairs(&[("a", "1"), ("code", "x"), ("code", "y")])), Some("x".to_string()));
    assert_eq!(find_code(&pairs(&[("a", "1")])), None);
    assert_eq!(find_code(&vec![]), None);
}

#[test]
fn token_form() {
    let a = auth();
    assert_eq!(
        a.token_request_form("thecode"),
        pairs(&[
            ("client_id", "client"),
            ("client_secret", "s3cret"),
            ("code", "thecode"),
            ("grant_type", "authorization_code"),
            ("redirect_uri", "http://localhost:5000/auth"),
        ])
    );
}

#[test]
fn storing_a_token() {
    let mut a = auth();
    a.store_token(TwitchOauthTokenResponse {
        access_token: "acc".to_string(),
        refresh_token: "ref".to_string(),
        expires_in: 14124,
    });
    assert_eq!(a.access_token, Some("acc".to_string()));
    assert_eq!(a.refresh_token(), &Some("ref".to_string()));
    assert_eq!(a.expires_in(), Some(14124));
    assert_eq!(a.client_id, "client");
}

#[test]
fn storing_a_token_with_negative_lifetime_wraps() {
    let mut a = auth();
    a.store_token(TwitchOauthTokenResponse {
        access_token: "acc".to_string(),
        refresh_token: "ref".to_string(),
        expires_in: -1,
    });
    assert_eq!(a.expires_in(), Some(u64::MAX));
}

#[test]
fn authorization_header_needs_a_token() {
    let mut a = auth();
    assert_eq!(
        a.authorization_header(),
        Err("No access token available. Run authenticate() first.".to_string())
    );
    a.store_token(TwitchOauthTokenResponse {
        access_token: "tok".to_string(),
        refresh_token: "r".to_string(),
        expires_in: 1,
    });
    assert_eq!(a.authorization_header(), Ok("Bearer tok".to_string()));
}

#[test]
fn user_fetch_failure_message() {
    assert_eq!(
        TwitchAuthenticator::user_fetch_failure("401 Unauthorized", "{\"error\":\"x\"}"),
        "Failed to fetch user data (401 Unauthorized): {\"error\":\"x\"}"
    );
}

#[test]
fn storing_user_data() {
    let mut a = auth();
    assert!(a.store_user_data(TwitchUsersResponse { data: vec![user("42"), user("43")] }).is_ok());
    assert_eq!(a.user_data.as_ref().unwrap().id, "42");
    let mut b = auth();
    assert_eq!(
        b.store_user_data(TwitchUsersResponse { data: vec![] }),
        Err("User data array was empty".to_string())
    );
    assert!(b.user_data.is_none());
}
