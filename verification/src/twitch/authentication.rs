//! OAuth login of the Twitch user whose events are relayed: the
//! authorization URL, the callback that carries the authorization code, the
//! token exchange and the user lookup.

use vstd::prelude::*;

use crate::json::opt_text;
use crate::strings::{
    contains_str, has_infix, join_strs, joined, joined_holds_every_part, joined_length, joined_splits,
    str_equal, strs_view, total_len,
};
use crate::twitch::eventsub_types::{resolved_scopes, EventSubType};

verus! {

/// Where Twitch sends the user back after authorization.
pub open spec fn redirect_uri_text() -> Seq<char> {
    "http://localhost:5000/auth"@
}

/// Twitch's OAuth authorization endpoint.
pub open spec fn authorize_endpoint() -> Seq<char> {
    "https://id.twitch.tv/oauth2/authorize"@
}

/// The prefix that turns the path of a callback request into an absolute URL.
pub open spec fn callback_origin() -> Seq<char> {
    "http://local.host"@
}

/// The message of the error that a user lookup without an access token fails with.
pub open spec fn no_token_message() -> Seq<char> {
    "No access token available. Run authenticate() first."@
}

/// The URL that `base` denotes with `pairs` appended to its query, each
/// form-urlencoded, as the `url` crate serialises it; `None` when `base` is
/// no absolute URL.
pub uninterp spec fn url_with_query(base: Seq<char>, pairs: Seq<(Seq<char>, Seq<char>)>) -> Option<
    Seq<char>,
>;

/// The decoded (name, value) pairs of the query of the URL `url`, in order,
/// as the `url` crate parses them; `None` when `url` is no absolute URL.
pub uninterp spec fn url_query_pairs(url: Seq<char>) -> Option<Seq<(Seq<char>, Seq<char>)>>;

/// Text of each (name, value) pair of a list.
pub open spec fn pair_texts(v: Seq<(String, String)>) -> Seq<(Seq<char>, Seq<char>)> {
    v.map_values(|p: (String, String)| (p.0@, p.1@))
}

/// Text of each pair of an optional list.
pub open spec fn opt_pair_texts(v: Option<Vec<(String, String)>>) -> Option<
    Seq<(Seq<char>, Seq<char>)>,
> {
    match v {
        Some(ps) => Some(pair_texts(ps@)),
        None => None,
    }
}

/// The value of the first pair named `name`, if any.
pub open spec fn first_value(ps: Seq<(Seq<char>, Seq<char>)>, name: Seq<char>) -> Option<Seq<char>>
    decreases ps.len(),
{
    if ps.len() == 0 {
        None
    } else if ps[0].0 == name {
        Some(ps[0].1)
    } else {
        first_value(ps.drop_first(), name)
    }
}

/// Trusted: `url::Url::parse_with_params(base, pairs)`, serialised with
/// `as_str`. The contract claims that the outcome is a function of `base` and
/// `pairs` alone, named `url_with_query`.
#[verifier::external_body]
fn parse_with_params(base: &str, pairs: &Vec<(String, String)>) -> (r: Option<String>)
    ensures
        opt_text(r) == url_with_query(base@, pair_texts(pairs@)),
{
    match url::Url::parse_with_params(base, pairs.iter()) {
        Ok(u) => Some(u.as_str().to_string()),
        Err(_) => None,
    }
}

/// Trusted: `url::Url::parse(url)` and then its `query_pairs`, each pair
/// turned into owned strings. The contract claims that the outcome is a
/// function of `url` alone, named `url_query_pairs`.
#[verifier::external_body]
fn parse_query_pairs(url: &str) -> (r: Option<Vec<(String, String)>>)
    ensures
        opt_pair_texts(r) == url_query_pairs(url@),
{
    match url::Url::parse(url) {
        Ok(u) => Some(u.query_pairs().map(|(k, v)| (k.into_owned(), v.into_owned())).collect()),
        Err(_) => None,
    }
}

/// The value found for a name is that of the first pair carrying the name,
/// whatever that value is.
pub proof fn first_value_is_first_match(ps: Seq<(Seq<char>, Seq<char>)>, name: Seq<char>, i: int)
    requires
        0 <= i < ps.len(),
        ps[i].0 == name,
        forall|j: int| 0 <= j < i ==> (#[trigger] ps[j]).0 != name,
    ensures
        first_value(ps, name) == Some(ps[i].1),
    decreases i,
{
    if i > 0 {
        let r = ps.drop_first();
        assert(ps[0].0 != name);
        assert forall|j: int| 0 <= j < i - 1 implies (#[trigger] r[j]).0 != name by {
            assert(r[j] == ps[j + 1]);
        }
        assert(r[i - 1] == ps[i]);
        first_value_is_first_match(r, name, i - 1);
    }
}

/// No value is found for a name that no pair carries.
pub proof fn first_value_without_match(ps: Seq<(Seq<char>, Seq<char>)>, name: Seq<char>)
    requires
        forall|j: int| 0 <= j < ps.len() ==> (#[trigger] ps[j]).0 != name,
    ensures
        first_value(ps, name) is None,
    decreases ps.len(),
{
    if ps.len() > 0 {
        let r = ps.drop_first();
        assert(ps[0].0 != name);
        assert forall|j: int| 0 <= j < r.len() implies (#[trigger] r[j]).0 != name by {
            assert(r[j] == ps[j + 1]);
        }
        first_value_without_match(r, name);
    }
}

/// The authorization query carries the client id, the redirect URI,
/// `response_type=code` and, as its scope, every given scope in order with
/// single spaces between them and nothing else.
pub proof fn authorization_query_lists_every_scope(
    client_id: Seq<char>,
    redirect_uri: Seq<char>,
    scopes: Seq<Seq<char>>,
)
    ensures
        authorize_query(client_id, redirect_uri, scopes).len() == 4,
        authorize_query(client_id, redirect_uri, scopes)[0] == ("client_id"@, client_id),
        authorize_query(client_id, redirect_uri, scopes)[1] == ("redirect_uri"@, redirect_uri),
        authorize_query(client_id, redirect_uri, scopes)[2] == ("response_type"@, "code"@),
        authorize_query(client_id, redirect_uri, scopes)[3].0 == "scope"@,
        forall|i: int|
            0 <= i < scopes.len() ==> has_infix(
                authorize_query(client_id, redirect_uri, scopes)[3].1,
                #[trigger] scopes[i],
            ),
        scopes.len() > 0 ==> authorize_query(client_id, redirect_uri, scopes)[3].1.len() == total_len(
            scopes,
        ) + scopes.len() - 1,
        scopes.len() == 0 ==> authorize_query(client_id, redirect_uri, scopes)[3].1.len() == 0,
        forall|k: int|
            0 < k < scopes.len() ==> #[trigger] authorize_query(client_id, redirect_uri, scopes.take(k))[3].1
                + " "@ + joined(scopes.skip(k), " "@) == authorize_query(
                client_id,
                redirect_uri,
                scopes,
            )[3].1,
{
    reveal_strlit(" ");
    let v = authorize_query(client_id, redirect_uri, scopes)[3].1;
    assert(v == joined(scopes, " "@));
    assert forall|i: int| 0 <= i < scopes.len() implies has_infix(v, #[trigger] scopes[i]) by {
        joined_holds_every_part(scopes, " "@, i);
    }
    if scopes.len() > 0 {
        joined_length(scopes, " "@);
        assert(" "@.len() == 1);
        assert((scopes.len() - 1) * 1 == scopes.len() - 1);
    }
    assert forall|k: int| 0 < k < scopes.len() implies #[trigger] authorize_query(
        client_id,
        redirect_uri,
        scopes.take(k),
    )[3].1 + " "@ + joined(scopes.skip(k), " "@) == v by {
        joined_splits(scopes, " "@, k);
    }
}

/// What a request to the local callback server carries.
pub enum AuthCallback {
    /// The authorization code that Twitch handed back.
    Code(String),
    /// A request whose path does not mention `code=`.
    NoCode,
    /// A request whose path mentions `code=` but whose query has no `code` pair.
    CodeMissing,
    /// A request whose path mentions `code=` but whose URL cannot be read.
    Malformed,
}

/// The value of the first `code` pair of a list of query pairs.
pub fn find_code(pairs: &Vec<(String, String)>) -> (r: Option<String>)
    ensures
        opt_text(r) == first_value(pair_texts(pairs@), "code"@),
{
    let ghost ps = pair_texts(pairs@);
    let n = pairs.len();
    let mut i: usize = 0;
    assert(ps.skip(0) =~= ps);
    while i < n
        invariant
            n == pairs@.len(),
            ps == pair_texts(pairs@),
            i <= n,
            first_value(ps, "code"@) == first_value(ps.skip(i as int), "code"@),
        decreases n - i,
    {
        assert(ps.skip(i as int)[0] == ps[i as int]);
        assert(ps.skip(i as int).drop_first() =~= ps.skip(i + 1));
        if str_equal(pairs[i].0.as_str(), "code") {
            return Some(pairs[i].1.clone());
        }
        i = i + 1;
    }
    assert(ps.skip(n as int).len() == 0);
    None
}

/// Reads a request to the local callback server: a request whose path does
/// not mention `code=` carries no code; otherwise the path, made absolute,
/// is parsed and the value of its first `code` query pair, if any, is the
/// code.
pub fn auth_callback(request_url: &str) -> (r: AuthCallback)
    ensures
        !has_infix(request_url@, "code="@) <==> r is NoCode,
        has_infix(request_url@, "code="@) ==> (url_query_pairs(callback_origin() + request_url@) is None
            <==> r is Malformed),
        has_infix(request_url@, "code="@) ==> match url_query_pairs(callback_origin() + request_url@) {
            Some(ps) => match first_value(ps, "code"@) {
                Some(c) => r matches AuthCallback::Code(x) && x@ == c,
                None => r is CodeMissing,
            },
            None => true,
        },
{
    if !contains_str(request_url, "code=") {
        return AuthCallback::NoCode;
    }
    let mut absolute = String::from_str("http://local.host");
    absolute.append(request_url);
    match parse_query_pairs(absolute.as_str()) {
        None => AuthCallback::Malformed,
        Some(pairs) => match find_code(&pairs) {
            Some(code) => AuthCallback::Code(code),
            None => AuthCallback::CodeMissing,
        },
    }
}

/// The user whose token the service acts with.
pub struct TwitchUserData {
    pub id: String,
    pub login: String,
    pub display_name: String,
}

/// Twitch's answer to a token request.
pub struct TwitchOauthTokenResponse {
    pub access_token: String,
    pub refresh_token: String,
    pub expires_in: i64,
}

/// Twitch's answer to a user lookup: the authenticated user first.
pub struct TwitchUsersResponse {
    pub data: Vec<TwitchUserData>,
}

/// Login state of the Twitch user.
pub struct TwitchAuthenticator {
    /// Twitch app client ID
    pub client_id: String,
    /// client secret for OAuth
    client_secret: String,
    /// User access token, used as the Bearer token in API requests
    pub access_token: Option<String>,
    refresh_token: Option<String>,
    expires_in: Option<u64>,
    redirect_uri: String,
    pub user_data: Option<TwitchUserData>,
}

/// What a `TwitchAuthenticator` holds, as text.
pub struct AuthenticatorView {
    pub client_id: Seq<char>,
    pub client_secret: Seq<char>,
    pub access_token: Option<Seq<char>>,
    pub refresh_token: Option<Seq<char>>,
    pub expires_in: Option<u64>,
    pub redirect_uri: Seq<char>,
    pub user_data: Option<TwitchUserData>,
}

impl View for TwitchAuthenticator {
    type V = AuthenticatorView;

    closed spec fn view(&self) -> AuthenticatorView {
        AuthenticatorView {
            client_id: self.client_id@,
            client_secret: self.client_secret@,
            access_token: opt_text(self.access_token),
            refresh_token: opt_text(self.refresh_token),
            expires_in: self.expires_in,
            redirect_uri: self.redirect_uri@,
            user_data: self.user_data,
        }
    }
}

/// The query of the authorization URL for a client and a list of scopes.
pub open spec fn authorize_query(
    client_id: Seq<char>,
    redirect_uri: Seq<char>,
    scopes: Seq<Seq<char>>,
) -> Seq<(Seq<char>, Seq<char>)> {
    seq![
        ("client_id"@, client_id),
        ("redirect_uri"@, redirect_uri),
        ("response_type"@, "code"@),
        ("scope"@, joined(scopes, " "@)),
    ]
}

/// The form of a token request.
pub open spec fn token_form(
    client_id: Seq<char>,
    client_secret: Seq<char>,
    code: Seq<char>,
    redirect_uri: Seq<char>,
) -> Seq<(Seq<char>, Seq<char>)> {
    seq![
        ("client_id"@, client_id),
        ("client_secret"@, client_secret),
        ("code"@, code),
        ("grant_type"@, "authorization_code"@),
        ("redirect_uri"@, redirect_uri),
    ]
}

/// The message of a failed user lookup.
pub open spec fn user_fetch_failure_text(status: Seq<char>, body: Seq<char>) -> Seq<char> {
    "Failed to fetch user data ("@ + status + "): "@ + body
}

fn pair(name: &str, value: &str) -> (p: (String, String))
    ensures
        p.0@ == name@,
        p.1@ == value@,
{
    (String::from_str(name), String::from_str(value))
}

impl TwitchAuthenticator {
    /// A client that has not logged in yet, redirected to
    /// `http://localhost:5000/auth`.
    pub fn new(client_id: String, client_secret: String) -> (auth: Self)
        ensures
            auth@.client_id == client_id@,
            auth@.client_secret == client_secret@,
            auth@.access_token is None,
            auth@.refresh_token is None,
            auth@.expires_in is None,
            auth@.redirect_uri == redirect_uri_text(),
            auth@.user_data is None,
    {
        proof {
            reveal_strlit("http://localhost:5000/auth");
        }
        Self {
            client_id,
            client_secret,
            access_token: None,
            refresh_token: None,
            expires_in: None,
            redirect_uri: String::from_str("http://localhost:5000/auth"),
            user_data: None,
        }
    }

    /// The client id.
    pub fn client_id(&self) -> (r: &String)
        ensures
            r@ == self@.client_id,
    {
        &self.client_id
    }

    /// The access token, once a token was received.
    pub fn access_token(&self) -> (r: &Option<String>)
        ensures
            opt_text(*r) == self@.access_token,
    {
        &self.access_token
    }

    /// The authenticated user, once looked up.
    pub fn user_data(&self) -> (r: &Option<TwitchUserData>)
        ensures
            *r == self@.user_data,
    {
        &self.user_data
    }

    /// The client secret.
    pub fn client_secret(&self) -> (r: &String)
        ensures
            r@ == self@.client_secret,
    {
        &self.client_secret
    }

    /// The refresh token, once a token was received.
    pub fn refresh_token(&self) -> (r: &Option<String>)
        ensures
            opt_text(*r) == self@.refresh_token,
    {
        &self.refresh_token
    }

    /// Lifetime of the access token in seconds, once a token was received.
    pub fn expires_in(&self) -> (r: Option<u64>)
        ensures
            r == self@.expires_in,
    {
        self.expires_in
    }

    /// Where Twitch sends the user back after authorization.
    pub fn redirect_uri(&self) -> (r: &String)
        ensures
            r@ == self@.redirect_uri,
    {
        &self.redirect_uri
    }

    /// The query of the authorization URL: client id, redirect URI,
    /// `response_type=code` and the scopes joined by spaces.
    pub fn authorize_pairs(&self, scopes: &Vec<&str>) -> (r: Vec<(String, String)>)
        ensures
            pair_texts(r@) == authorize_query(self@.client_id, self@.redirect_uri, strs_view(scopes@)),
    {
        let mut r: Vec<(String, String)> = Vec::new();
        r.push(pair("client_id", self.client_id.as_str()));
        r.push(pair("redirect_uri", self.redirect_uri.as_str()));
        r.push(pair("response_type", "code"));
        let joined_scopes = join_strs(scopes, " ");
        r.push(pair("scope", joined_scopes.as_str()));
        assert(pair_texts(r@) =~= authorize_query(
            self.client_id@,
            self.redirect_uri@,
            strs_view(scopes@),
        ));
        r
    }

    /// The URL where the user authorizes this client for the scopes that
    /// the given subscription types need; `None` only if the `url` crate
    /// refuses the authorization endpoint.
    pub fn authorization_url(&self, subscription_types: &[EventSubType]) -> (r: Option<String>)
        ensures
            opt_text(r) == url_with_query(
                authorize_endpoint(),
                authorize_query(self@.client_id, self@.redirect_uri, resolved_scopes(subscription_types@)),
            ),
    {
        proof {
            reveal_strlit("https://id.twitch.tv/oauth2/authorize");
        }
        let scopes = EventSubType::resolve_scopes(subscription_types);
        let pairs = self.authorize_pairs(&scopes);
        parse_with_params("https://id.twitch.tv/oauth2/authorize", &pairs)
    }

    /// The form of the request that exchanges an authorization code for tokens.
    pub fn token_request_form(&self, code: &str) -> (r: Vec<(String, String)>)
        ensures
            pair_texts(r@) == token_form(self@.client_id, self@.client_secret, code@, self@.redirect_uri),
    {
        let mut r: Vec<(String, String)> = Vec::new();
        r.push(pair("client_id", self.client_id.as_str()));
        r.push(pair("client_secret", self.client_secret.as_str()));
        r.push(pair("code", code));
        r.push(pair("grant_type", "authorization_code"));
        r.push(pair("redirect_uri", self.redirect_uri.as_str()));
        assert(pair_texts(r@) =~= token_form(
            self.client_id@,
            self.client_secret@,
            code@,
            self.redirect_uri@,
        ));
        r
    }

    /// Keeps the tokens of a token response; the lifetime is taken as an
    /// unsigned number, as `as u64` converts it.
    pub fn store_token(&mut self, response: TwitchOauthTokenResponse)
        ensures
            final(self)@ == (AuthenticatorView {
                access_token: Some(response.access_token@),
                refresh_token: Some(response.refresh_token@),
                expires_in: Some(response.expires_in as u64),
                ..old(self)@
            }),
    {
        self.access_token = Some(response.access_token);
        self.refresh_token = Some(response.refresh_token);
        self.expires_in = Some(response.expires_in as u64);
    }

    /// The `Authorization` header of an API request, `Bearer <access token>`;
    /// fails with "No access token available. Run authenticate() first." before a
    /// token was received.
    pub fn authorization_header(&self) -> (r: Result<String, String>)
        ensures
            match self@.access_token {
                Some(t) => r matches Ok(h) && h@ == "Bearer "@ + t,
                None => r matches Err(m) && m@ == no_token_message(),
            },
    {
        proof {
            reveal_strlit("No access token available. Run authenticate() first.");
        }
        match &self.access_token {
            Some(t) => {
                let mut h = String::from_str("Bearer ");
                h.append(t.as_str());
                Ok(h)
            },
            None => Err(String::from_str("No access token available. Run authenticate() first.")),
        }
    }

    /// The message of a user lookup that Twitch answered with a failure status.
    pub fn user_fetch_failure(status: &str, body: &str) -> (r: String)
        ensures
            r@ == user_fetch_failure_text(status@, body@),
    {
        let mut r = String::from_str("Failed to fetch user data (");
        r.append(status);
        r.append("): ");
        r.append(body);
        r
    }

    /// Keeps the first user of a user lookup; fails with "User data array was
    /// empty", and keeps the state as it was, when the answer names no user.
    pub fn store_user_data(&mut self, response: TwitchUsersResponse) -> (r: Result<(), String>)
        ensures
            response.data@.len() > 0 ==> r is Ok && final(self)@ == (AuthenticatorView {
                user_data: Some(response.data@[0]),
                ..old(self)@
            }),
            response.data@.len() == 0 ==> (r matches Err(m) && m@ == "User data array was empty"@),
            response.data@.len() == 0 ==> final(self)@ == old(self)@,
    {
        proof {
            reveal_strlit("User data array was empty");
        }
        let mut data = response.data;
        if data.len() == 0 {
            return Err(String::from_str("User data array was empty"));
        }
        let user = data.remove(0);
        self.user_data = Some(user);
        Ok(())
    }
}

} // verus!
