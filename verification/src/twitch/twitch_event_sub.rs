//! The EventSub websocket session: what each incoming message leads to,
//! the subscription requests sent once the session is open, and the tally
//! of their outcomes.

use vstd::prelude::*;

use crate::json::{json_payload_session_id, opt_text, payload_session_id};
use crate::strings::{
    decimal, decimal_is_digits, decimal_is_injective, is_digit, str_equal, u32_to_decimal,
    u8_to_decimal,
};
use crate::twitch::authentication::TwitchAuthenticator;
use crate::twitch::condition::Condition;
use crate::twitch::eventsub_types::{
    condition_pairs, subscription_name, subscription_version, EventSubType,
};

verus! {

/// A notification message of the EventSub websocket
/// (see <https://dev.twitch.tv/docs/eventsub/handling-websocket-events#notification-message>).
pub struct WSNotification {
    pub metadata: WSMetadata,
    pub payload: serde_json::Value,
}

/// The metadata of a websocket message.
pub struct WSMetadata {
    pub message_id: String,
    pub message_type: String,
    pub message_timestamp: String,
    pub subscription_type: Option<String>,
}

/// The body of a request that creates a subscription.
pub struct EventSubSubscription {
    /// The subscription type's name (`type` on the wire).
    pub kind: String,
    pub version: String,
    pub condition: Condition,
    pub transport: Transport,
}

/// How notifications of a subscription are delivered.
pub struct Transport {
    /// `webhook` or `websocket`.
    pub method: String,
    pub session_id: String,
}

/// The EventSub websocket session.
pub struct TwitchEventSub {
    pub session_id: Option<String>,
}

/// What the session does with an incoming websocket message.
#[derive(Clone, Copy, Debug, PartialEq, Eq, Structural)]
pub enum WsAction {
    /// The session was opened: subscribe to the configured events.
    Subscribe,
    /// A keepalive: nothing to do.
    Skip,
    /// Anything else: hand the message on to the router.
    Forward,
    /// A welcome message without a session id.
    MalformedWelcome,
}

/// The action for a message of a given type, given the session id that its
/// payload carries, if any.
pub open spec fn action_for(message_type: Seq<char>, session_id: Option<Seq<char>>) -> WsAction {
    if message_type == "session_welcome"@ {
        if session_id is Some {
            WsAction::Subscribe
        } else {
            WsAction::MalformedWelcome
        }
    } else if message_type == "session_keepalive"@ {
        WsAction::Skip
    } else {
        WsAction::Forward
    }
}

/// Outcomes of the subscription requests of a session.
pub struct SubscriptionReport {
    pub success: u32,
    pub failed: u32,
}

/// The summary line of a subscription report.
pub open spec fn report_text(success: u32, failed: u32) -> Seq<char> {
    "Subscription report: "@ + decimal(success as nat) + " successful, "@ + decimal(failed as nat)
        + " failed"@
}

/// The summary line names the success count right after
/// "Subscription report: " and before " successful, ", and the failure count
/// right before the closing " failed".
pub proof fn report_names_each_count(success: u32, failed: u32)
    ensures
        report_text(success, failed).subrange(0, 21) == "Subscription report: "@,
        report_text(success, failed).subrange(21, 21int + decimal(success as nat).len())
            == decimal(success as nat),
        report_text(success, failed).subrange(
            21int + decimal(success as nat).len(),
            34int + decimal(success as nat).len(),
        ) == " successful, "@,
        report_text(success, failed).subrange(
            report_text(success, failed).len() - 7 - decimal(failed as nat).len(),
            report_text(success, failed).len() - 7,
        ) == decimal(failed as nat),
        report_text(success, failed).subrange(
            report_text(success, failed).len() - 7,
            report_text(success, failed).len() as int,
        ) == " failed"@,
{
    reveal_strlit("Subscription report: ");
    reveal_strlit(" successful, ");
    reveal_strlit(" failed");
    let t = report_text(success, failed);
    let ds = decimal(success as nat);
    let df = decimal(failed as nat);
    let p = "Subscription report: "@;
    let m = " successful, "@;
    let q = " failed"@;
    assert(p.len() == 21 && m.len() == 13 && q.len() == 7);
    assert(t == p + ds + m + df + q);
    assert(t.subrange(0, 21) =~= p);
    assert(t.subrange(21, 21int + ds.len()) =~= ds);
    assert(t.subrange(21int + ds.len(), 34int + ds.len()) =~= m);
    assert(t.subrange(t.len() - 7 - df.len(), t.len() - 7) =~= df);
    assert(t.subrange(t.len() - 7, t.len() as int) =~= q);
}

/// Different counts give different summary lines: the line tells how many
/// requests succeeded and how many failed.
pub proof fn report_tells_the_counts(s1: u32, f1: u32, s2: u32, f2: u32)
    ensures
        report_text(s1, f1) == report_text(s2, f2) ==> s1 == s2 && f1 == f2,
{
    if report_text(s1, f1) == report_text(s2, f2) {
        reveal_strlit(" successful, ");
        let t = report_text(s1, f1);
        let a = decimal(s1 as nat);
        let b = decimal(s2 as nat);
        let fa = decimal(f1 as nat);
        let fb = decimal(f2 as nat);
        report_names_each_count(s1, f1);
        report_names_each_count(s2, f2);
        decimal_is_digits(s1 as nat);
        decimal_is_digits(s2 as nat);
        assert(" successful, "@[0] == ' ');
        if a.len() < b.len() {
            let k = 21int + a.len();
            assert(t[k] == t.subrange(21int + a.len(), 34int + a.len())[0]);
            assert(t[k] == t.subrange(21, 21int + b.len())[a.len() as int]);
            assert(is_digit(b[a.len() as int]));
            assert(false);
        }
        if b.len() < a.len() {
            let k = 21int + b.len();
            assert(t[k] == t.subrange(21int + b.len(), 34int + b.len())[0]);
            assert(t[k] == t.subrange(21, 21int + a.len())[b.len() as int]);
            assert(is_digit(a[b.len() as int]));
            assert(false);
        }
        assert(a == b);
        decimal_is_injective(s1 as nat, s2 as nat);
        assert(t.len() == 34int + a.len() + fa.len() + 7);
        assert(report_text(s2, f2).len() == 34int + b.len() + fb.len() + 7);
        assert(fa == fb);
        decimal_is_injective(f1 as nat, f2 as nat);
    }
}

impl SubscriptionReport {
    /// No request made yet.
    pub fn new() -> (r: Self)
        ensures
            r.success == 0,
            r.failed == 0,
    {
        SubscriptionReport { success: 0, failed: 0 }
    }

    /// Counts the outcome of one more request.
    pub fn record(&mut self, succeeded: bool)
        requires
            succeeded ==> old(self).success < u32::MAX,
            !succeeded ==> old(self).failed < u32::MAX,
        ensures
            final(self).success == old(self).success + if succeeded { 1int } else { 0int },
            final(self).failed == old(self).failed + if succeeded { 0int } else { 1int },
            final(self).success + final(self).failed == old(self).success + old(self).failed + 1,
    {
        if succeeded {
            self.success = self.success + 1;
        } else {
            self.failed = self.failed + 1;
        }
    }

    /// `Subscription report: <n> successful, <m> failed`.
    pub fn summary(&self) -> (s: String)
        ensures
            s@ == report_text(self.success, self.failed),
    {
        let mut s = String::from_str("Subscription report: ");
        let ok = u32_to_decimal(self.success);
        s.append(ok.as_str());
        s.append(" successful, ");
        let bad = u32_to_decimal(self.failed);
        s.append(bad.as_str());
        s.append(" failed");
        s
    }
}

impl TwitchEventSub {
    /// A session that has not been welcomed yet.
    pub fn new() -> (s: Self)
        ensures
            s.session_id is None,
    {
        Self { session_id: None }
    }

    /// Handles a welcome message whose payload carries `session_id`:
    /// the session keeps the id and subscribes; without an id the message is
    /// malformed and the session stays as it was.
    pub fn accept_welcome(&mut self, session_id: Option<String>) -> (action: WsAction)
        ensures
            action == action_for("session_welcome"@, opt_text(session_id)),
            session_id is Some ==> final(self).session_id == session_id,
            session_id is None ==> final(self).session_id == old(self).session_id,
    {
        match session_id {
            Some(id) => {
                self.session_id = Some(id);
                WsAction::Subscribe
            },
            None => WsAction::MalformedWelcome,
        }
    }

    /// Handles an incoming websocket message, given its metadata and its raw
    /// text: a welcome stores the session id found at `payload.session.id`
    /// and subscribes, a keepalive is skipped, anything else is forwarded.
    pub fn on_message(&mut self, metadata: &WSMetadata, raw: &str) -> (action: WsAction)
        ensures
            action == action_for(
                metadata.message_type@,
                if metadata.message_type@ == "session_welcome"@ {
                    json_payload_session_id(raw@)
                } else {
                    None
                },
            ),
            action == WsAction::Subscribe ==> opt_text(final(self).session_id) == json_payload_session_id(raw@),
            action != WsAction::Subscribe ==> final(self).session_id == old(self).session_id,
    {
        if str_equal(metadata.message_type.as_str(), "session_welcome") {
            let id = payload_session_id(raw);
            self.accept_welcome(id)
        } else if str_equal(metadata.message_type.as_str(), "session_keepalive") {
            WsAction::Skip
        } else {
            WsAction::Forward
        }
    }

    /// The body of the request that subscribes this session to one type:
    /// the type's name and version, its condition for the broadcaster and
    /// the authenticated user, and delivery over this websocket session.
    pub fn subscription_request(
        &self,
        auth: &TwitchAuthenticator,
        broadcaster_id: &String,
        sub_type: &EventSubType,
    ) -> (body: EventSubSubscription)
        requires
            auth@.user_data is Some,
            self.session_id is Some,
        ensures
            body.kind@ == subscription_name(*sub_type),
            body.version@ == decimal(subscription_version(*sub_type) as nat),
            body.condition.pairs() == condition_pairs(
                *sub_type,
                broadcaster_id@,
                auth@.user_data->0.id@,
            ),
            body.transport.method@ == "websocket"@,
            body.transport.session_id == self.session_id->0,
    {
        proof {
            reveal_strlit("websocket");
        }
        let (name, version) = sub_type.types_info();
        let user_id = match auth.user_data() {
            Some(u) => u.id.clone(),
            None => String::new(),
        };
        assert(user_id@ == auth@.user_data->0.id@);
        let condition = sub_type.build_condition(broadcaster_id.clone(), user_id);
        let session_id = match &self.session_id {
            Some(id) => id.clone(),
            None => String::new(),
        };
        EventSubSubscription {
            kind: String::from_str(name),
            version: u8_to_decimal(version),
            condition,
            transport: Transport { method: String::from_str("websocket"), session_id },
        }
    }
}

} // verus!
