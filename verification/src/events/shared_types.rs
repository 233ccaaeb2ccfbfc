//! Parts that every EventSub notification payload shares.

use vstd::prelude::*;

verus! {

/// The subscription that a notification was delivered for.
pub struct Subscription {
    pub id: String,
    /// The subscription type's name (`type` on the wire).
    pub kind: String,
    pub version: String,
    pub cost: u64,
    pub created_at: String,
}

/// A chat message: its text and the fragments it is made of.
pub struct Message {
    pub text: String,
    pub fragments: Vec<Fragment>,
}

/// One fragment of a chat message.
pub struct Fragment {
    /// The fragment's kind (`type` on the wire).
    pub kind: String,
    pub text: Option<String>,
    pub cheermote: Option<serde_json::Value>,
    pub emote: Option<serde_json::Value>,
    pub gif: Option<serde_json::Value>,
    pub mention: Option<serde_json::Value>,
}

} // verus!
