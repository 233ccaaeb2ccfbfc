//! The EventSub subscription types this service knows: their names and
//! versions on the Twitch API, the OAuth scopes each needs, and the
//! condition each subscription request carries.

use vstd::prelude::*;

use crate::strings::{str_equal, strs_view};
use crate::twitch::condition::{names_distinct, pairs_map, Condition};

verus! {

/// An EventSub subscription type
/// (see <https://dev.twitch.tv/docs/eventsub/eventsub-subscription-types/>).
#[derive(Clone, Copy, Debug, PartialEq, Eq, Structural)]
pub enum EventSubType {
    /// `channel.bits.use`
    ChannelBitsUse,
    /// `channel.chat.message`
    ChannelChatMessage,
    /// `channel.follow`
    ChannelFollow,
    /// `channel.raid`
    ChannelRaid,
    /// `channel.subscribe`
    ChannelSubscribe,
}

/// Name of a subscription type on the Twitch API.
pub open spec fn subscription_name(t: EventSubType) -> Seq<char> {
    match t {
        EventSubType::ChannelBitsUse => "channel.bits.use"@,
        EventSubType::ChannelChatMessage => "channel.chat.message"@,
        EventSubType::ChannelFollow => "channel.follow"@,
        EventSubType::ChannelRaid => "channel.raid"@,
        EventSubType::ChannelSubscribe => "channel.subscribe"@,
    }
}

/// Version of a subscription type that this service subscribes to.
pub open spec fn subscription_version(t: EventSubType) -> u8 {
    match t {
        EventSubType::ChannelFollow => 2,
        _ => 1,
    }
}

/// OAuth scopes that a subscription type needs.
pub open spec fn subscription_scopes(t: EventSubType) -> Seq<Seq<char>> {
    match t {
        EventSubType::ChannelBitsUse => seq!["bits:read"@],
        EventSubType::ChannelChatMessage => seq!["user:read:chat"@],
        EventSubType::ChannelFollow => seq!["moderator:read:followers"@],
        EventSubType::ChannelRaid => Seq::empty(),
        EventSubType::ChannelSubscribe => seq!["channel:read:subscriptions"@],
    }
}

/// The subscription type that a name denotes, if any.
pub open spec fn parse_event_type(s: Seq<char>) -> Option<EventSubType> {
    if s == "channel.bits.use"@ {
        Some(EventSubType::ChannelBitsUse)
    } else if s == "channel.chat.message"@ {
        Some(EventSubType::ChannelChatMessage)
    } else if s == "channel.follow"@ {
        Some(EventSubType::ChannelFollow)
    } else if s == "channel.raid"@ {
        Some(EventSubType::ChannelRaid)
    } else if s == "channel.subscribe"@ {
        Some(EventSubType::ChannelSubscribe)
    } else {
        None
    }
}

/// The types that a list of names denotes, in list order; names that denote
/// no type are left out.
pub open spec fn parsed_types(names: Seq<Seq<char>>) -> Seq<EventSubType>
    decreases names.len(),
{
    if names.len() == 0 {
        Seq::empty()
    } else {
        let rest = parsed_types(names.drop_last());
        match parse_event_type(names.last()) {
            Some(t) => rest.push(t),
            None => rest,
        }
    }
}

/// Every scope of every type, in order, repeats included.
pub open spec fn all_scopes(types: Seq<EventSubType>) -> Seq<Seq<char>>
    decreases types.len(),
{
    if types.len() == 0 {
        Seq::empty()
    } else {
        all_scopes(types.drop_last()) + subscription_scopes(types.last())
    }
}

/// A list with each element kept at its first occurrence only.
pub open spec fn dedup(xs: Seq<Seq<char>>) -> Seq<Seq<char>>
    decreases xs.len(),
{
    if xs.len() == 0 {
        Seq::empty()
    } else {
        let r = dedup(xs.drop_last());
        if r.contains(xs.last()) {
            r
        } else {
            r.push(xs.last())
        }
    }
}

/// The scopes that a list of types needs, each once, in order of first need.
pub open spec fn resolved_scopes(types: Seq<EventSubType>) -> Seq<Seq<char>> {
    dedup(all_scopes(types))
}

/// Text of each string in a list.
pub open spec fn strings_view(v: Seq<String>) -> Seq<Seq<char>> {
    v.map_values(|s: String| s@)
}

/// Condition fields of a subscription request for a type, in the order
/// in which they are set.
pub open spec fn condition_pairs(t: EventSubType, broadcaster_id: Seq<char>, user_id: Seq<char>) -> Seq<
    (Seq<char>, Seq<char>),
> {
    match t {
        EventSubType::ChannelBitsUse => seq![("broadcaster_user_id"@, broadcaster_id)],
        EventSubType::ChannelChatMessage => seq![
            ("broadcaster_user_id"@, broadcaster_id),
            ("user_id"@, user_id),
        ],
        EventSubType::ChannelFollow => seq![
            ("broadcaster_user_id"@, broadcaster_id),
            ("moderator_user_id"@, user_id),
        ],
        EventSubType::ChannelRaid => Seq::empty(),
        EventSubType::ChannelSubscribe => seq![("broadcaster_user_id"@, broadcaster_id)],
    }
}

proof fn reveal_type_names()
    ensures
        "channel.bits.use"@.len() == 16,
        "channel.chat.message"@.len() == 20,
        "channel.follow"@.len() == 14,
        "channel.raid"@.len() == 12,
        "channel.subscribe"@.len() == 17,
{
    reveal_strlit("channel.bits.use");
    reveal_strlit("channel.chat.message");
    reveal_strlit("channel.follow");
    reveal_strlit("channel.raid");
    reveal_strlit("channel.subscribe");
    assert("channel.bits.use"@.len() == 16);
    assert("channel.chat.message"@.len() == 20);
    assert("channel.follow"@.len() == 14);
    assert("channel.raid"@.len() == 12);
    assert("channel.subscribe"@.len() == 17);
}

fn contains_scope(v: &Vec<&'static str>, s: &str) -> (r: bool)
    ensures
        r == strs_view(v@).contains(s@),
{
    let n = v.len();
    let mut i: usize = 0;
    while i < n
        invariant
            n == v@.len(),
            i <= n,
            forall|j: int| 0 <= j < i ==> (#[trigger] v@[j])@ != s@,
        decreases n - i,
    {
        if str_equal(v[i], s) {
            assert(strs_view(v@)[i as int] == s@);
            return true;
        }
        i = i + 1;
    }
    assert forall|j: int| 0 <= j < strs_view(v@).len() implies #[trigger] strs_view(v@)[j] != s@ by {
        assert(v@[j]@ != s@);
    }
    false
}

/// Every subscription type's name denotes that type, and a name denotes a
/// type only if it is that type's name.
pub proof fn name_roundtrip(t: EventSubType, s: Seq<char>)
    ensures
        parse_event_type(subscription_name(t)) == Some(t),
        parse_event_type(s) == Some(t) ==> subscription_name(t) == s,
{
    reveal_type_names();
}

/// Converting the names of a list of types gives back that list.
pub proof fn names_of_types_roundtrip(types: Seq<EventSubType>)
    ensures
        parsed_types(types.map_values(|t: EventSubType| subscription_name(t))) == types,
    decreases types.len(),
{
    let names = types.map_values(|t: EventSubType| subscription_name(t));
    if types.len() > 0 {
        assert(names.drop_last() =~= types.drop_last().map_values(
            |t: EventSubType| subscription_name(t),
        ));
        names_of_types_roundtrip(types.drop_last());
        name_roundtrip(types.last(), names.last());
        assert(types.drop_last().push(types.last()) =~= types);
    }
}

proof fn lemma_dedup(xs: Seq<Seq<char>>)
    ensures
        dedup(xs).no_duplicates(),
        forall|s: Seq<char>| dedup(xs).contains(s) <==> xs.contains(s),
    decreases xs.len(),
{
    if xs.len() > 0 {
        let d = xs.drop_last();
        lemma_dedup(d);
        assert forall|s: Seq<char>| dedup(xs).contains(s) <==> xs.contains(s) by {
            if xs.contains(s) && s != xs.last() {
                let i = choose|i: int| 0 <= i < xs.len() && xs[i] == s;
                assert(d[i] == s);
            }
            if d.contains(s) {
                let i = choose|i: int| 0 <= i < d.len() && d[i] == s;
                assert(xs[i] == s);
            }
            if dedup(xs).contains(s) && !dedup(d).contains(s) {
                let r = dedup(d).push(xs.last());
                let i = choose|i: int| 0 <= i < r.len() && r[i] == s;
                assert(xs[xs.len() - 1] == s);
            }
            if xs.contains(s) && s == xs.last() && dedup(d).contains(s) {
            }
            if xs.contains(s) && s == xs.last() && !dedup(d).contains(s) {
                assert(dedup(xs).last() == s);
            }
            if dedup(d).contains(s) && !(dedup(d).contains(xs.last())) {
                let i = choose|i: int| 0 <= i < dedup(d).len() && dedup(d)[i] == s;
                assert(dedup(xs)[i] == s);
            }
        }
    }
}

proof fn lemma_all_scopes_contains(types: Seq<EventSubType>, s: Seq<char>)
    ensures
        all_scopes(types).contains(s) <==> exists|i: int|
            0 <= i < types.len() && subscription_scopes(#[trigger] types[i]).contains(s),
    decreases types.len(),
{
    if types.len() > 0 {
        let d = types.drop_last();
        lemma_all_scopes_contains(d, s);
        let a = all_scopes(d);
        let b = subscription_scopes(types.last());
        if (a + b).contains(s) {
            let k = choose|k: int| 0 <= k < (a + b).len() && (a + b)[k] == s;
            if k < a.len() {
                assert(a[k] == s);
                let i = choose|i: int| 0 <= i < d.len() && subscription_scopes(#[trigger] d[i]).contains(s);
                assert(types[i] == d[i]);
            } else {
                assert(b[k - a.len()] == s);
                assert(subscription_scopes(types[types.len() - 1]).contains(s));
            }
        }
        if exists|i: int| 0 <= i < types.len() && subscription_scopes(#[trigger] types[i]).contains(s) {
            let i = choose|i: int| 0 <= i < types.len() && subscription_scopes(#[trigger] types[i]).contains(s);
            if i < types.len() - 1 {
                assert(d[i] == types[i]);
                assert(a.contains(s));
                let k = choose|k: int| 0 <= k < a.len() && a[k] == s;
                assert((a + b)[k] == s);
            } else {
                let k = choose|k: int| 0 <= k < b.len() && b[k] == s;
                assert((a + b)[a.len() + k] == s);
            }
        }
    }
}

/// The resolved scopes hold no scope twice, and hold exactly the scopes
/// that some of the given types need.
pub proof fn resolved_scopes_are_the_needed_ones(types: Seq<EventSubType>, s: Seq<char>)
    ensures
        resolved_scopes(types).no_duplicates(),
        resolved_scopes(types).contains(s) <==> exists|i: int|
            0 <= i < types.len() && subscription_scopes(#[trigger] types[i]).contains(s),
{
    lemma_dedup(all_scopes(types));
    lemma_all_scopes_contains(types, s);
}

/// Parsing a list of names goes name by name: the types of a list made of
/// two lists are the types of the first followed by those of the second, so
/// an unknown name anywhere drops only itself.
pub proof fn parsing_is_per_name(a: Seq<Seq<char>>, b: Seq<Seq<char>>)
    ensures
        parsed_types(a + b) == parsed_types(a) + parsed_types(b),
    decreases b.len(),
{
    if b.len() == 0 {
        assert(a + b =~= a);
        assert(parsed_types(a) + parsed_types(b) =~= parsed_types(a));
    } else {
        assert((a + b).drop_last() =~= a + b.drop_last());
        assert((a + b).last() == b.last());
        parsing_is_per_name(a, b.drop_last());
        match parse_event_type(b.last()) {
            Some(t) => {
                assert(parsed_types(a) + parsed_types(b.drop_last()).push(t) =~= (parsed_types(a)
                    + parsed_types(b.drop_last())).push(t));
            },
            None => {},
        }
    }
}

/// A single name gives the type it denotes, or nothing when it denotes none.
pub proof fn parsing_one_name(s: Seq<char>)
    ensures
        parse_event_type(s) is None ==> parsed_types(seq![s]) == Seq::<EventSubType>::empty(),
        parse_event_type(s) matches Some(t) ==> parsed_types(seq![s]) == seq![t],
{
    reveal_with_fuel(parsed_types, 2);
    assert(seq![s].drop_last() =~= Seq::<Seq<char>>::empty());
    assert(seq![s].last() == s);
    if let Some(t) = parse_event_type(s) {
        assert(Seq::<EventSubType>::empty().push(t) =~= seq![t]);
    }
}

/// The condition of every type names the broadcaster; chat messages also
/// name the authenticated user as `user_id`, follows as `moderator_user_id`,
/// whether or not the user is the broadcaster; raids carry no condition.
/// Each field is present once and carries exactly the given id.
pub proof fn conditions_name_broadcaster_and_user(b: Seq<char>, u: Seq<char>)
    ensures
        pairs_map(condition_pairs(EventSubType::ChannelFollow, b, u)) == Map::<Seq<char>, Seq<char>>::empty().insert(
            "broadcaster_user_id"@,
            b,
        ).insert("moderator_user_id"@, u),
        pairs_map(condition_pairs(EventSubType::ChannelChatMessage, b, u)) == Map::<Seq<char>, Seq<char>>::empty().insert(
            "broadcaster_user_id"@,
            b,
        ).insert("user_id"@, u),
        pairs_map(condition_pairs(EventSubType::ChannelBitsUse, b, u)) == Map::<Seq<char>, Seq<char>>::empty().insert(
            "broadcaster_user_id"@,
            b,
        ),
        pairs_map(condition_pairs(EventSubType::ChannelSubscribe, b, u)) == Map::<Seq<char>, Seq<char>>::empty().insert(
            "broadcaster_user_id"@,
            b,
        ),
        pairs_map(condition_pairs(EventSubType::ChannelRaid, b, u)) == Map::<Seq<char>, Seq<char>>::empty(),
        pairs_map(condition_pairs(EventSubType::ChannelFollow, b, u)).len() == 2,
        pairs_map(condition_pairs(EventSubType::ChannelChatMessage, b, u)).len() == 2,
        forall|t: EventSubType| #[trigger] names_distinct(condition_pairs(t, b, u)),
{
    reveal_with_fuel(pairs_map, 3);
    reveal_strlit("broadcaster_user_id");
    reveal_strlit("user_id");
    reveal_strlit("moderator_user_id");
    assert("user_id"@.len() != "broadcaster_user_id"@.len());
    assert("moderator_user_id"@.len() != "broadcaster_user_id"@.len());
    let e = Map::<Seq<char>, Seq<char>>::empty();
    let f = condition_pairs(EventSubType::ChannelFollow, b, u);
    assert(f.drop_last().drop_last() =~= Seq::<(Seq<char>, Seq<char>)>::empty());
    assert(f.drop_last() =~= seq![("broadcaster_user_id"@, b)]);
    let c = condition_pairs(EventSubType::ChannelChatMessage, b, u);
    assert(c.drop_last().drop_last() =~= Seq::<(Seq<char>, Seq<char>)>::empty());
    assert(c.drop_last() =~= seq![("broadcaster_user_id"@, b)]);
    assert(condition_pairs(EventSubType::ChannelBitsUse, b, u).drop_last() =~= Seq::<
        (Seq<char>, Seq<char>),
    >::empty());
    assert(condition_pairs(EventSubType::ChannelSubscribe, b, u).drop_last() =~= Seq::<
        (Seq<char>, Seq<char>),
    >::empty());
    let m1 = e.insert("broadcaster_user_id"@, b);
    assert(m1.dom() =~= set!["broadcaster_user_id"@]);
    assert(m1.insert("moderator_user_id"@, u).dom() =~= set!["broadcaster_user_id"@, "moderator_user_id"@]);
    assert(m1.insert("user_id"@, u).dom() =~= set!["broadcaster_user_id"@, "user_id"@]);
    assert(set!["broadcaster_user_id"@, "moderator_user_id"@].len() == 2);
    assert(set!["broadcaster_user_id"@, "user_id"@].len() == 2);
}

impl EventSubType {
    /// Resolve scopes required for each given event type: every scope that
    /// some given type needs, each once, in order of first need.
    pub fn resolve_scopes(types: &[EventSubType]) -> (result: Vec<&'static str>)
        ensures
            strs_view(result@) == resolved_scopes(types@),
    {
        let mut result: Vec<&'static str> = Vec::new();
        let n = types.len();
        let mut i: usize = 0;
        assert(types@.take(0) =~= Seq::<EventSubType>::empty());
        assert(strs_view(result@) =~= Seq::<Seq<char>>::empty());
        while i < n
            invariant
                n == types@.len(),
                i <= n,
                strs_view(result@) == dedup(all_scopes(types@.take(i as int))),
            decreases n - i,
        {
            let sc = types[i].scopes();
            let m = sc.len();
            let ghost before = all_scopes(types@.take(i as int));
            let mut j: usize = 0;
            assert(before + strs_view(sc@).take(0) =~= before);
            while j < m
                invariant
                    m == sc@.len(),
                    j <= m,
                    strs_view(result@) == dedup(before + strs_view(sc@).take(j as int)),
                decreases m - j,
            {
                let scope = sc[j];
                let ghost xs = before + strs_view(sc@).take(j as int);
                assert((before + strs_view(sc@).take(j + 1)).drop_last() =~= xs);
                assert((before + strs_view(sc@).take(j + 1)).last() == scope@);
                if !contains_scope(&result, scope) {
                    result.push(scope);
                    assert(strs_view(result@) =~= dedup(xs).push(scope@));
                }
                j = j + 1;
            }
            assert(types@.take(i + 1).drop_last() =~= types@.take(i as int));
            assert(strs_view(sc@).take(m as int) =~= strs_view(sc@));
            assert(all_scopes(types@.take(i + 1)) == before + subscription_scopes(types@[i as int]));
            i = i + 1;
        }
        assert(types@.take(n as int) =~= types@);
        result
    }

    /// The subscription type that a name denotes, if any.
    pub fn from_name(name: &str) -> (r: Option<EventSubType>)
        ensures
            r == parse_event_type(name@),
    {
        if str_equal(name, "channel.bits.use") {
            Some(EventSubType::ChannelBitsUse)
        } else if str_equal(name, "channel.chat.message") {
            Some(EventSubType::ChannelChatMessage)
        } else if str_equal(name, "channel.follow") {
            Some(EventSubType::ChannelFollow)
        } else if str_equal(name, "channel.raid") {
            Some(EventSubType::ChannelRaid)
        } else if str_equal(name, "channel.subscribe") {
            Some(EventSubType::ChannelSubscribe)
        } else {
            None
        }
    }

    /// Convert subscription type names to the types they denote, in list
    /// order; names that denote no type are skipped.
    pub fn str_to_event_type(list: &[String]) -> (result: Vec<EventSubType>)
        ensures
            result@ == parsed_types(strings_view(list@)),
    {
        let mut result: Vec<EventSubType> = Vec::new();
        let n = list.len();
        let mut i: usize = 0;
        assert(strings_view(list@).take(0) =~= Seq::<Seq<char>>::empty());
        while i < n
            invariant
                n == list@.len(),
                i <= n,
                result@ == parsed_types(strings_view(list@).take(i as int)),
            decreases n - i,
        {
            assert(strings_view(list@).take(i + 1).drop_last() =~= strings_view(list@).take(
                i as int,
            ));
            assert(strings_view(list@).take(i + 1).last() == list@[i as int]@);
            match EventSubType::from_name(list[i].as_str()) {
                Some(t) => result.push(t),
                None => {},
            }
            i = i + 1;
        }
        assert(strings_view(list@).take(n as int) =~= strings_view(list@));
        result
    }

    /// Get the event subscription type name and version.
    pub fn types_info(&self) -> (r: (&'static str, u8))
        ensures
            r.0@ == subscription_name(*self),
            r.1 == subscription_version(*self),
    {
        match self {
            EventSubType::ChannelBitsUse => ("channel.bits.use", 1),
            EventSubType::ChannelChatMessage => ("channel.chat.message", 1),
            EventSubType::ChannelFollow => ("channel.follow", 2),
            EventSubType::ChannelRaid => ("channel.raid", 1),
            EventSubType::ChannelSubscribe => ("channel.subscribe", 1),
        }
    }

    /// Resolve enum value to required scopes.
    pub fn scopes(&self) -> (r: &'static [&'static str])
        ensures
            strs_view(r@) == subscription_scopes(*self),
    {
        let r: &'static [&'static str] = match self {
            EventSubType::ChannelBitsUse => &["bits:read"],
            EventSubType::ChannelChatMessage => &["user:read:chat"],
            EventSubType::ChannelFollow => &["moderator:read:followers"],
            EventSubType::ChannelRaid => &[],
            EventSubType::ChannelSubscribe => &["channel:read:subscriptions"],
        };
        assert(strs_view(r@) =~= subscription_scopes(*self));
        r
    }

    /// The condition of a subscription request for this type: the
    /// broadcaster for every type but raids (whose condition is empty), and
    /// for chat messages and follows also the authenticated user, as reader
    /// and as moderator respectively.
    pub fn build_condition(&self, broadcaster_id: String, user_id: String) -> (map: Condition)
        ensures
            map.pairs() == condition_pairs(*self, broadcaster_id@, user_id@),
            map@ == pairs_map(condition_pairs(*self, broadcaster_id@, user_id@)),
    {
        proof {
            reveal_strlit("broadcaster_user_id");
            reveal_strlit("user_id");
            reveal_strlit("moderator_user_id");
            assert("user_id"@.len() != "broadcaster_user_id"@.len());
            assert("moderator_user_id"@.len() != "broadcaster_user_id"@.len());
        }
        let ghost b = broadcaster_id@;
        let ghost u = user_id@;
        let mut map = Condition::new();
        match self {
            EventSubType::ChannelBitsUse => {
                map.insert(String::from_str("broadcaster_user_id"), broadcaster_id);
            },
            EventSubType::ChannelChatMessage => {
                map.insert(String::from_str("broadcaster_user_id"), broadcaster_id);
                assert(!map@.contains_key("user_id"@));
                map.insert(String::from_str("user_id"), user_id);
            },
            EventSubType::ChannelFollow => {
                map.insert(String::from_str("broadcaster_user_id"), broadcaster_id);
                assert(!map@.contains_key("moderator_user_id"@));
                map.insert(String::from_str("moderator_user_id"), user_id);
            },
            EventSubType::ChannelRaid => return map,
            EventSubType::ChannelSubscribe => {
                map.insert(String::from_str("broadcaster_user_id"), broadcaster_id);
            },
        }
        assert(map.pairs() =~= condition_pairs(*self, b, u));
        proof {
            let ps = condition_pairs(*self, b, u);
            assert(pairs_map(ps) == map@) by {
                reveal_with_fuel(pairs_map, 3);
                if ps.len() == 2 {
                    assert(ps.drop_last().drop_last() =~= Seq::<(Seq<char>, Seq<char>)>::empty());
                } else {
                    assert(ps.drop_last() =~= Seq::<(Seq<char>, Seq<char>)>::empty());
                }
            }
        }
        map
    }
}

} // verus!
