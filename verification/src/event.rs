//! The neutral event model handed to host callbacks.
use vstd::prelude::*;
use crate::chain::Mockv2MessageChain;

verus! {

/// A snapshot of one group member, taken when the event was built and
/// never mutated afterwards.
#[derive(Debug)]
pub struct GroupMemberInfo {
    pub user_id: String,
    pub nick: Option<String>,
    pub name: Option<String>,
}

/// A pair of display names for a member, as the host expects them.
#[derive(Debug)]
pub struct MemberInfo {
    pub nick: String,
    pub name: String,
}

/// One neutral event. `Closed` is synthetic: it is appended once per
/// callback subscription when that subscription's stream ends, and never
/// broadcast on the shared bus.
#[derive(Debug)]
pub enum Event {
    /// The session connected and identified itself.
    Connected { name: String, qq: String },
    /// A translated group message.
    GroupMessage {
        self_id: String,
        group_id: String,
        sender: GroupMemberInfo,
        message: Vec<Mockv2MessageChain>,
    },
    /// A group message was recalled.
    GroupMessageDeleted { group_id: String, self_id: String, message_id: String },
    /// The end-of-stream sentinel for one subscription.
    Closed,
}

} // verus!
