use qqbot_core::errors::BotError;
use qqbot_core::ids::{i64_to_dec_string, parse_qq_id, u64_to_dec_string};
use qqbot_core::plus_100;
use qqbot_core::proxy::{check_response, expected_response_tag, ApiOperation, ResponseTag};
use qqbot_core::bytes::ByteBuffer;

#[test]
fn plus_100_adds() {
    assert_eq!(plus_100(1), 101);
    assert_eq!(plus_100(0), 100);
}

#[test]
fn byte_buffer_len() {
    let b = ByteBuffer(vec![1, 2, 3]);
    assert_eq!(b.len(), 3);
}

#[test]
fn parse_plain_id() {
    assert_eq!(parse_qq_id("12345").unwrap(), 12345);
}

#[test]
fn parse_signed_ids() {
    assert_eq!(parse_qq_id("+7").unwrap(), 7);
    assert_eq!(parse_qq_id("-3").unwrap(), -3);
    assert_eq!(parse_qq_id("0").unwrap(), 0);
}

#[test]
fn parse_extremes() {
    assert_eq!(parse_qq_id("9223372036854775807").unwrap(), i64::MAX);
    assert_eq!(parse_qq_id("-9223372036854775808").unwrap(), i64::MIN);
}

#[test]
fn parse_rejects_malformed() {
    assert_eq!(parse_qq_id("").unwrap_err(), BotError::InvalidId);
    assert_eq!(parse_qq_id("+").unwrap_err(), BotError::InvalidId);
    assert_eq!(parse_qq_id("-").unwrap_err(), BotError::InvalidId);
    assert_eq!(parse_qq_id("12a").unwrap_err(), BotError::InvalidId);
    assert_eq!(parse_qq_id("not_a_number").unwrap_err(), BotError::InvalidId);
    assert_eq!(parse_qq_id(" 5").unwrap_err(), BotError::InvalidId);
    assert_eq!(parse_qq_id("--5").unwrap_err(), BotError::InvalidId);
}

#[test]
fn parse_rejects_overflow() {
    assert_eq!(
        parse_qq_id("9223372036854775808").unwrap_err(),
        BotError::InvalidId
    );
    assert_eq!(
        parse_qq_id("-9223372036854775809").unwrap_err(),
        BotError::InvalidId
    );
    assert_eq!(
        parse_qq_id("99999999999999999999999").unwrap_err(),
        BotError::InvalidId
    );
}

#[test]
fn format_decimal() {
    assert_eq!(u64_to_dec_string(0), "0");
    assert_eq!(u64_to_dec_string(907), "907");
    assert_eq!(i64_to_dec_string(42), "42");
    assert_eq!(i64_to_dec_string(-7), "-7");
    assert_eq!(i64_to_dec_string(i64::MIN), "-9223372036854775808");
}

#[test]
fn format_then_parse_round_trips() {
    for v in [0i64, 1, -1, 123456789, i64::MAX, i64::MIN] {
        assert_eq!(parse_qq_id(&i64_to_dec_string(v)).unwrap(), v);
    }
}

#[test]
fn response_tag_table() {
    assert_eq!(
        expected_response_tag(ApiOperation::GetLoginInfo),
        ResponseTag::GetLoginInfoResponse
    );
    assert_eq!(
        expected_response_tag(ApiOperation::SendMsg),
        ResponseTag::SendMsgResponse
    );
    assert_eq!(
        expected_response_tag(ApiOperation::SendLike),
        ResponseTag::NoResponse
    );
    assert_eq!(
        expected_response_tag(ApiOperation::GetFriendList),
        ResponseTag::GetFriendListResponse
    );
}

#[test]
fn matching_response_accepted() {
    assert!(check_response(ApiOperation::GetLoginInfo, ResponseTag::GetLoginInfoResponse).is_ok());
    assert!(check_response(ApiOperation::DeleteMsg, ResponseTag::DeleteMsgResponse).is_ok());
}

#[test]
fn mismatched_response_reports_both_tags() {
    let e = check_response(ApiOperation::GetLoginInfo, ResponseTag::SendMsgResponse).unwrap_err();
    assert_eq!(
        e,
        BotError::UnexpectedResponseType {
            expected: ResponseTag::GetLoginInfoResponse,
            actual: ResponseTag::SendMsgResponse,
        }
    );
}
