//! The pure halves of the host-facing commands: id parsing and request
//! building before the network call, response shaping after it.
use vstd::prelude::*;
use crate::chain::{
    Mockv2MessageChain, WireSegment, chain_view_of, msgchain_to_segments, spec_chain_to_segments,
    wire_segs_view_of,
};
use crate::errors::BotError;
use crate::event::GroupMemberInfo;
use crate::ids::{i64_to_dec_string, parse_qq_id, parsed_i64, spec_dec_chars_i64};

verus! {

/// The group-member lookup, ids parsed and ready to send.
#[derive(Debug)]
pub struct GetGroupMemberRequest {
    pub group_id: i64,
    pub user_id: i64,
}

/// Parses both ids of a group-member lookup; fails with `InvalidId`,
/// before any network call, exactly when either is not a decimal 64-bit
/// integer.
pub fn get_group_member_request(group_id: &str, user_id: &str) -> (r: Result<
    GetGroupMemberRequest,
    BotError,
>)
    ensures
        match r {
            Ok(q) => parsed_i64(group_id@) == Option::Some(q.group_id as int) && parsed_i64(
                user_id@,
            ) == Option::Some(q.user_id as int),
            Err(e) => (parsed_i64(group_id@) is None || parsed_i64(user_id@) is None) && e
                == BotError::InvalidId,
        },
{
    let g = parse_qq_id(group_id)?;
    let u = parse_qq_id(user_id)?;
    Ok(GetGroupMemberRequest { group_id: g, user_id: u })
}

/// The member snapshot a group-member lookup answers with.
pub fn group_member_info_from(user_id: i64, card: String, nickname: String) -> (r: GroupMemberInfo)
    ensures
        r.user_id@ == spec_dec_chars_i64(user_id as int),
        r.nick == Option::Some(card),
        r.name == Option::Some(nickname),
{
    GroupMemberInfo {
        user_id: i64_to_dec_string(user_id),
        nick: Some(card),
        name: Some(nickname),
    }
}

/// Parses the id of a message to delete; fails with `InvalidId`, before
/// any network call, exactly when it is not a decimal 64-bit integer.
pub fn delete_message_request(message_id: &str) -> (r: Result<i64, BotError>)
    ensures
        match r {
            Ok(v) => parsed_i64(message_id@) == Option::Some(v as int),
            Err(e) => parsed_i64(message_id@) is None && e == BotError::InvalidId,
        },
{
    parse_qq_id(message_id)
}

/// An outbound group message, chain already converted to wire segments.
#[derive(Debug)]
pub struct SendGroupMessageRequest {
    pub group_id: i64,
    pub segments: Vec<WireSegment>,
}

/// Converts the chain and parses the group id, in that order; an
/// unsupported node fails the whole chain first, then a malformed group
/// id fails with `InvalidId`. Nothing partial is ever sent.
pub fn send_group_message_request(group_id: &str, message: &[Mockv2MessageChain]) -> (r: Result<
    SendGroupMessageRequest,
    BotError,
>)
    ensures
        match r {
            Ok(q) => {
                &&& spec_chain_to_segments(chain_view_of(message@)) == Ok::<_, BotError>(
                    wire_segs_view_of(q.segments@),
                )
                &&& parsed_i64(group_id@) == Option::Some(q.group_id as int)
            },
            Err(e) => match spec_chain_to_segments(chain_view_of(message@)) {
                Err(ce) => e == ce,
                Ok(_) => parsed_i64(group_id@) is None && e == BotError::InvalidId,
            },
        },
{
    let segments = msgchain_to_segments(message)?;
    let g = parse_qq_id(group_id)?;
    Ok(SendGroupMessageRequest { group_id: g, segments })
}

/// What sending a group message answers with.
pub struct SendGroupMsgResp {
    pub message_id: String,
}

/// Shapes the send response: the new message id back as a decimal string.
pub fn send_group_msg_resp_from(message_id: i64) -> (r: SendGroupMsgResp)
    ensures
        r.message_id@ == spec_dec_chars_i64(message_id as int),
{
    SendGroupMsgResp { message_id: i64_to_dec_string(message_id) }
}

/// Shapes the friend list: each entry becomes its id as a decimal string
/// paired with its nickname, order kept.
pub fn friend_pairs_from(items: &Vec<(i64, String)>) -> (r: Vec<(String, String)>)
    ensures
        r@.len() == items@.len(),
        forall|i: int|
            0 <= i < items@.len() ==> (#[trigger] r@[i]).0@ == spec_dec_chars_i64(
                items@[i].0 as int,
            ) && r@[i].1 == items@[i].1,
{
    let mut out: Vec<(String, String)> = Vec::new();
    let mut i: usize = 0;
    while i < items.len()
        invariant
            0 <= i <= items@.len(),
            out@.len() == i,
            forall|k: int|
                0 <= k < i ==> (#[trigger] out@[k]).0@ == spec_dec_chars_i64(items@[k].0 as int)
                    && out@[k].1 == items@[k].1,
        decreases items@.len() - i,
    {
        let (uid, nick) = &items[i];
        out.push((i64_to_dec_string(*uid), nick.clone()));
        i = i + 1;
    }
    out
}

} // verus!
