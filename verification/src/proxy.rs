//! The typed API proxy's response discipline.
//!
//! Every remote operation sends one tagged request and expects one specific
//! response tag. The table below fixes, per operation, the tag that the
//! remote must answer with; `check_response` enforces it and never coerces a
//! mismatched response.
use vstd::prelude::*;
use crate::errors::BotError;

verus! {

/// One remote operation of the chat gateway's API.
#[derive(Clone, Copy, Debug, PartialEq, Eq, Structural)]
pub enum ApiOperation {
    SendPrivateMsg,
    SendGroupMsg,
    SendMsg,
    DeleteMsg,
    GetMsg,
    GetForwardMsg,
    GetLoginInfo,
    GetStrangerInfo,
    GetGroupInfo,
    GetGroupMemberInfo,
    GetGroupHonorInfo,
    GetCookies,
    GetCsrfToken,
    GetCredentials,
    GetRecord,
    GetImage,
    CanSendImage,
    CanSendRecord,
    GetStatus,
    GetVersionInfo,
    GetFriendList,
    GetGroupList,
    GetGroupMemberList,
    SendLike,
    SetGroupKick,
    SetGroupBan,
    SetGroupAnonymousBan,
    SetGroupWholeBan,
    SetGroupAdmin,
    SetGroupAnonymous,
    SetGroupCard,
    SetGroupName,
    SetGroupLeave,
    SetGroupSpecialTitle,
    SetFriendAddRequest,
    SetGroupAddRequest,
    SetRestart,
    CleanCache,
    GetGroupSystemMsg,
    GetFile,
    GetGroupFileCount,
    GetGroupFileList,
    SetGroupFileFolder,
    DelGroupFile,
    DelGroupFileFolder,
    SendGroupForwardMsg,
    SendPrivateForwardMsg,
    GetFriendsWithCategory,
    GetRobotUinRange,
    SetQQAvatar,
    ForwardFriendSingleMsg,
    ForwardGroupSingleMsg,
    SetMsgEmojiLike,
    MarkPrivateMsgAsRead,
    MarkGroupMsgAsRead,
    SetOnlineStatus,
}

/// The tag of a response envelope from the remote peer.
#[derive(Clone, Copy, Debug, PartialEq, Eq, Structural)]
pub enum ResponseTag {
    SendPrivateMsgResponse,
    SendGroupMsgResponse,
    SendMsgResponse,
    DeleteMsgResponse,
    GetMsgResponse,
    GetForwardMsgResponse,
    GetLoginInfoResponse,
    GetStrangerInfoResponse,
    GetFriendListResponse,
    GetGroupInfoResponse,
    GetGroupListResponse,
    GetGroupMemberInfoResponse,
    GetGroupMemberListResponse,
    GetGroupHonorInfoResponse,
    GetCookiesResponse,
    GetCsrfTokenResponse,
    GetCredentialsResponse,
    GetRecordResponse,
    GetImageResponse,
    CanSendImageResponse,
    CanSendRecordResponse,
    GetStatusResponse,
    GetVersionInfoResponse,
    NoResponse,
    GetGroupSystemMsgResponse,
    GetFileResponse,
    GetFriendsWithCategoryResponse,
    GetRobotUinRangeResponse,
    GetGroupFileCountResponse,
    GetGroupFileListResponse,
    SetGroupFileFolderResponse,
    DelGroupFileResponse,
    DelGroupFileFolderResponse,
    SendGroupForwardMsgResponse,
    SendPrivateForwardMsgResponse,
}

/// The response tag each operation is owed: the per-operation declaration
/// table that replaces one hand-written proxy method per operation.
pub open spec fn spec_expected_response_tag(op: ApiOperation) -> ResponseTag {
    match op {
        ApiOperation::SendPrivateMsg => ResponseTag::SendPrivateMsgResponse,
        ApiOperation::SendGroupMsg => ResponseTag::SendGroupMsgResponse,
        ApiOperation::SendMsg => ResponseTag::SendMsgResponse,
        ApiOperation::DeleteMsg => ResponseTag::DeleteMsgResponse,
        ApiOperation::GetMsg => ResponseTag::GetMsgResponse,
        ApiOperation::GetForwardMsg => ResponseTag::GetForwardMsgResponse,
        ApiOperation::GetLoginInfo => ResponseTag::GetLoginInfoResponse,
        ApiOperation::GetStrangerInfo => ResponseTag::GetStrangerInfoResponse,
        ApiOperation::GetGroupInfo => ResponseTag::GetGroupInfoResponse,
        ApiOperation::GetGroupMemberInfo => ResponseTag::GetGroupMemberInfoResponse,
        ApiOperation::GetGroupHonorInfo => ResponseTag::GetGroupHonorInfoResponse,
        ApiOperation::GetCookies => ResponseTag::GetCookiesResponse,
        ApiOperation::GetCsrfToken => ResponseTag::GetCsrfTokenResponse,
        ApiOperation::GetCredentials => ResponseTag::GetCredentialsResponse,
        ApiOperation::GetRecord => ResponseTag::GetRecordResponse,
        ApiOperation::GetImage => ResponseTag::GetImageResponse,
        ApiOperation::CanSendImage => ResponseTag::CanSendImageResponse,
        ApiOperation::CanSendRecord => ResponseTag::CanSendRecordResponse,
        ApiOperation::GetStatus => ResponseTag::GetStatusResponse,
        ApiOperation::GetVersionInfo => ResponseTag::GetVersionInfoResponse,
        ApiOperation::GetFriendList => ResponseTag::GetFriendListResponse,
        ApiOperation::GetGroupList => ResponseTag::GetGroupListResponse,
        ApiOperation::GetGroupMemberList => ResponseTag::GetGroupMemberListResponse,
        ApiOperation::SendLike => ResponseTag::NoResponse,
        ApiOperation::SetGroupKick => ResponseTag::NoResponse,
        ApiOperation::SetGroupBan => ResponseTag::NoResponse,
        ApiOperation::SetGroupAnonymousBan => ResponseTag::NoResponse,
        ApiOperation::SetGroupWholeBan => ResponseTag::NoResponse,
        ApiOperation::SetGroupAdmin => ResponseTag::NoResponse,
        ApiOperation::SetGroupAnonymous => ResponseTag::NoResponse,
        ApiOperation::SetGroupCard => ResponseTag::NoResponse,
        ApiOperation::SetGroupName => ResponseTag::NoResponse,
        ApiOperation::SetGroupLeave => ResponseTag::NoResponse,
        ApiOperation::SetGroupSpecialTitle => ResponseTag::NoResponse,
        ApiOperation::SetFriendAddRequest => ResponseTag::NoResponse,
        ApiOperation::SetGroupAddRequest => ResponseTag::NoResponse,
        ApiOperation::SetRestart => ResponseTag::NoResponse,
        ApiOperation::CleanCache => ResponseTag::NoResponse,
        ApiOperation::GetGroupSystemMsg => ResponseTag::GetGroupSystemMsgResponse,
        ApiOperation::GetFile => ResponseTag::GetFileResponse,
        ApiOperation::GetGroupFileCount => ResponseTag::GetGroupFileCountResponse,
        ApiOperation::GetGroupFileList => ResponseTag::GetGroupFileListResponse,
        ApiOperation::SetGroupFileFolder => ResponseTag::SetGroupFileFolderResponse,
        ApiOperation::DelGroupFile => ResponseTag::DelGroupFileResponse,
        ApiOperation::DelGroupFileFolder => ResponseTag::DelGroupFileFolderResponse,
        ApiOperation::SendGroupForwardMsg => ResponseTag::SendGroupForwardMsgResponse,
        ApiOperation::SendPrivateForwardMsg => ResponseTag::SendPrivateForwardMsgResponse,
        ApiOperation::GetFriendsWithCategory => ResponseTag::GetFriendsWithCategoryResponse,
        ApiOperation::GetRobotUinRange => ResponseTag::GetRobotUinRangeResponse,
        ApiOperation::SetQQAvatar => ResponseTag::NoResponse,
        ApiOperation::ForwardFriendSingleMsg => ResponseTag::NoResponse,
        ApiOperation::ForwardGroupSingleMsg => ResponseTag::NoResponse,
        ApiOperation::SetMsgEmojiLike => ResponseTag::NoResponse,
        ApiOperation::MarkPrivateMsgAsRead => ResponseTag::NoResponse,
        ApiOperation::MarkGroupMsgAsRead => ResponseTag::NoResponse,
        ApiOperation::SetOnlineStatus => ResponseTag::NoResponse,
    }
}

/// Executable twin of the declaration table.
pub fn expected_response_tag(op: ApiOperation) -> (t: ResponseTag)
    ensures
        t == spec_expected_response_tag(op),
{
    match op {
        ApiOperation::SendPrivateMsg => ResponseTag::SendPrivateMsgResponse,
        ApiOperation::SendGroupMsg => ResponseTag::SendGroupMsgResponse,
        ApiOperation::SendMsg => ResponseTag::SendMsgResponse,
        ApiOperation::DeleteMsg => ResponseTag::DeleteMsgResponse,
        ApiOperation::GetMsg => ResponseTag::GetMsgResponse,
        ApiOperation::GetForwardMsg => ResponseTag::GetForwardMsgResponse,
        ApiOperation::GetLoginInfo => ResponseTag::GetLoginInfoResponse,
        ApiOperation::GetStrangerInfo => ResponseTag::GetStrangerInfoResponse,
        ApiOperation::GetGroupInfo => ResponseTag::GetGroupInfoResponse,
        ApiOperation::GetGroupMemberInfo => ResponseTag::GetGroupMemberInfoResponse,
        ApiOperation::GetGroupHonorInfo => ResponseTag::GetGroupHonorInfoResponse,
        ApiOperation::GetCookies => ResponseTag::GetCookiesResponse,
        ApiOperation::GetCsrfToken => ResponseTag::GetCsrfTokenResponse,
        ApiOperation::GetCredentials => ResponseTag::GetCredentialsResponse,
        ApiOperation::GetRecord => ResponseTag::GetRecordResponse,
        ApiOperation::GetImage => ResponseTag::GetImageResponse,
        ApiOperation::CanSendImage => ResponseTag::CanSendImageResponse,
        ApiOperation::CanSendRecord => ResponseTag::CanSendRecordResponse,
        ApiOperation::GetStatus => ResponseTag::GetStatusResponse,
        ApiOperation::GetVersionInfo => ResponseTag::GetVersionInfoResponse,
        ApiOperation::GetFriendList => ResponseTag::GetFriendListResponse,
        ApiOperation::GetGroupList => ResponseTag::GetGroupListResponse,
        ApiOperation::GetGroupMemberList => ResponseTag::GetGroupMemberListResponse,
        ApiOperation::SendLike => ResponseTag::NoResponse,
        ApiOperation::SetGroupKick => ResponseTag::NoResponse,
        ApiOperation::SetGroupBan => ResponseTag::NoResponse,
        ApiOperation::SetGroupAnonymousBan => ResponseTag::NoResponse,
        ApiOperation::SetGroupWholeBan => ResponseTag::NoResponse,
        ApiOperation::SetGroupAdmin => ResponseTag::NoResponse,
        ApiOperation::SetGroupAnonymous => ResponseTag::NoResponse,
        ApiOperation::SetGroupCard => ResponseTag::NoResponse,
        ApiOperation::SetGroupName => ResponseTag::NoResponse,
        ApiOperation::SetGroupLeave => ResponseTag::NoResponse,
        ApiOperation::SetGroupSpecialTitle => ResponseTag::NoResponse,
        ApiOperation::SetFriendAddRequest => ResponseTag::NoResponse,
        ApiOperation::SetGroupAddRequest => ResponseTag::NoResponse,
        ApiOperation::SetRestart => ResponseTag::NoResponse,
        ApiOperation::CleanCache => ResponseTag::NoResponse,
        ApiOperation::GetGroupSystemMsg => ResponseTag::GetGroupSystemMsgResponse,
        ApiOperation::GetFile => ResponseTag::GetFileResponse,
        ApiOperation::GetGroupFileCount => ResponseTag::GetGroupFileCountResponse,
        ApiOperation::GetGroupFileList => ResponseTag::GetGroupFileListResponse,
        ApiOperation::SetGroupFileFolder => ResponseTag::SetGroupFileFolderResponse,
        ApiOperation::DelGroupFile => ResponseTag::DelGroupFileResponse,
        ApiOperation::DelGroupFileFolder => ResponseTag::DelGroupFileFolderResponse,
        ApiOperation::SendGroupForwardMsg => ResponseTag::SendGroupForwardMsgResponse,
        ApiOperation::SendPrivateForwardMsg => ResponseTag::SendPrivateForwardMsgResponse,
        ApiOperation::GetFriendsWithCategory => ResponseTag::GetFriendsWithCategoryResponse,
        ApiOperation::GetRobotUinRange => ResponseTag::GetRobotUinRangeResponse,
        ApiOperation::SetQQAvatar => ResponseTag::NoResponse,
        ApiOperation::ForwardFriendSingleMsg => ResponseTag::NoResponse,
        ApiOperation::ForwardGroupSingleMsg => ResponseTag::NoResponse,
        ApiOperation::SetMsgEmojiLike => ResponseTag::NoResponse,
        ApiOperation::MarkPrivateMsgAsRead => ResponseTag::NoResponse,
        ApiOperation::MarkGroupMsgAsRead => ResponseTag::NoResponse,
        ApiOperation::SetOnlineStatus => ResponseTag::NoResponse,
    }
}

/// Accepts a response envelope's tag exactly when it is the one `op` is
/// owed; a mismatch fails with both tags and never partially decodes.
pub fn check_response(op: ApiOperation, actual: ResponseTag) -> (r: Result<(), BotError>)
    ensures
        match r {
            Ok(()) => actual == spec_expected_response_tag(op),
            Err(e) => {
                &&& actual != spec_expected_response_tag(op)
                &&& e == (BotError::UnexpectedResponseType {
                    expected: spec_expected_response_tag(op),
                    actual,
                })
            },
        },
{
    let expected = expected_response_tag(op);
    if actual == expected {
        Ok(())
    } else {
        Err(BotError::UnexpectedResponseType { expected, actual })
    }
}

} // verus!
