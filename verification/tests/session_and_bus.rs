use qqbot_core::bus::{Bus, RecvPoll};
use qqbot_core::chain::{WireGroupSender, WireMessage, WireSegment};
use qqbot_core::commands::{
    delete_message_request, friend_pairs_from, get_group_member_request, group_member_info_from,
    send_group_message_request, send_group_msg_resp_from,
};
use qqbot_core::chain::Mockv2MessageChain;
use qqbot_core::errors::BotError;
use qqbot_core::event::Event;
use qqbot_core::session::{AccessToken, QQBotConfig, QQBotEndpoint, WireEvent};

fn endpoint(addr: &str) -> QQBotEndpoint {
    QQBotEndpoint::new(QQBotConfig {
        addr: addr.to_string(),
        access_token: AccessToken::new("token123".to_string()),
    })
}

#[test]
fn start_resolves_target() {
    let mut s = endpoint("example.com:8080");
    let a = s.start().unwrap();
    assert_eq!(a.host, "example.com");
    assert_eq!(a.port, 8080);
}

#[test]
fn start_twice_fails_even_after_success() {
    let mut s = endpoint("example.com:8080");
    assert!(s.start().is_ok());
    assert_eq!(s.start().unwrap_err(), BotError::AlreadyStarted);
}

#[test]
fn start_twice_fails_even_after_failure() {
    let mut s = endpoint("no-colon-here");
    assert_eq!(s.start().unwrap_err(), BotError::BadAddress);
    assert_eq!(s.start().unwrap_err(), BotError::AlreadyStarted);
}

#[test]
fn bad_port_is_bad_address() {
    let mut s = endpoint("example.com:notaport");
    assert_eq!(s.start().unwrap_err(), BotError::BadAddress);
    let mut s = endpoint("example.com:65536");
    assert_eq!(s.start().unwrap_err(), BotError::BadAddress);
    let mut s = endpoint(":8080");
    assert_eq!(s.start().unwrap_err(), BotError::BadAddress);
}

#[test]
fn private_message_is_not_published() {
    let mut s = endpoint("example.com:1");
    let mut rx = s.register_callback();
    s.handle_onebot_event(WireEvent::Message(WireMessage::Private {
        nickname: Some("p".to_string()),
        message_id: 5,
        message: vec![WireSegment::Text { text: "psst".to_string() }],
    }))
    .unwrap();
    assert!(matches!(s.bus().poll(&mut rx), RecvPoll::Pending));
}

#[test]
fn terminate_before_start_is_clean() {
    let mut s = endpoint("example.com:1");
    assert!(s.terminate().is_ok());
    assert_eq!(s.terminate().unwrap_err(), BotError::AlreadyTerminated);
    // the never-started loop has published nothing
    let mut rx = s.register_callback();
    assert!(matches!(s.bus().poll(&mut rx), RecvPoll::Pending));
}

#[test]
fn terminate_after_start_is_one_shot() {
    let mut s = endpoint("example.com:1");
    s.start().unwrap();
    assert!(s.terminate().is_ok());
    assert_eq!(s.terminate().unwrap_err(), BotError::AlreadyTerminated);
}

#[test]
fn client_only_after_complete_start() {
    let mut s = endpoint("example.com:1");
    assert_eq!(s.get_client().unwrap_err(), BotError::NotInitialized);
    s.start().unwrap();
    assert_eq!(s.get_client().unwrap_err(), BotError::NotInitialized);
    let mut rx = s.register_callback();
    s.complete_start("botname".to_string(), 777).unwrap();
    assert!(s.get_client().is_ok());
    match s.bus().poll(&mut rx) {
        RecvPoll::Ready(Event::Connected { name, qq }) => {
            assert_eq!(name, "botname");
            assert_eq!(qq, "777");
        }
        _ => panic!("expected the Connected event"),
    }
    // the handle is single-assignment
    assert_eq!(
        s.complete_start("again".to_string(), 8).unwrap_err(),
        BotError::AlreadyStarted
    );
}

#[test]
fn complete_start_requires_start() {
    let mut s = endpoint("example.com:1");
    assert_eq!(
        s.complete_start("x".to_string(), 1).unwrap_err(),
        BotError::NotInitialized
    );
}

fn group_wire_event(user_id: Option<i64>, segs: Vec<WireSegment>) -> WireEvent {
    WireEvent::Message(WireMessage::Group {
        self_id: 10,
        group_id: 20,
        sender: WireGroupSender {
            user_id,
            nickname: Some("nick".to_string()),
            card: Some("card".to_string()),
        },
        message_id: 30,
        message: segs,
    })
}

#[test]
fn group_message_is_published() {
    let mut s = endpoint("example.com:1");
    let mut rx = s.register_callback();
    s.handle_onebot_event(group_wire_event(
        Some(9),
        vec![WireSegment::Text { text: "hey".to_string() }],
    ))
    .unwrap();
    match s.bus().poll(&mut rx) {
        RecvPoll::Ready(Event::GroupMessage { self_id, group_id, sender, message }) => {
            assert_eq!(self_id, "10");
            assert_eq!(group_id, "20");
            assert_eq!(sender.user_id, "9");
            assert_eq!(sender.nick.as_deref(), Some("card"));
            assert_eq!(sender.name.as_deref(), Some("nick"));
            assert_eq!(message.len(), 2);
            assert!(matches!(&message[0], Mockv2MessageChain::Source { id } if id == "30"));
            assert!(matches!(&message[1], Mockv2MessageChain::Plain { text } if text == "hey"));
        }
        _ => panic!("expected the group message"),
    }
}

#[test]
fn untranslatable_message_is_dropped_silently() {
    let mut s = endpoint("example.com:1");
    let mut rx = s.register_callback();
    // an inbound image without its URL is a hard translation failure
    s.handle_onebot_event(group_wire_event(
        Some(9),
        vec![WireSegment::Image { file: "f".to_string(), url: None }],
    ))
    .unwrap();
    assert!(matches!(s.bus().poll(&mut rx), RecvPoll::Pending));
}

#[test]
fn missing_sender_id_is_fatal() {
    let mut s = endpoint("example.com:1");
    let e = s
        .handle_onebot_event(group_wire_event(
            None,
            vec![WireSegment::Text { text: "x".to_string() }],
        ))
        .unwrap_err();
    assert_eq!(e, BotError::MissingSenderId);
}

#[test]
fn recall_and_meta_events() {
    let mut s = endpoint("example.com:1");
    let mut rx = s.register_callback();
    s.handle_onebot_event(WireEvent::Heartbeat).unwrap();
    s.handle_onebot_event(WireEvent::Lifecycle).unwrap();
    s.handle_onebot_event(WireEvent::Request).unwrap();
    s.handle_onebot_event(WireEvent::ApiRespBuilder).unwrap();
    s.handle_onebot_event(WireEvent::GroupMessageRecall {
        self_id: 1,
        group_id: 2,
        message_id: 3,
    })
    .unwrap();
    match s.bus().poll(&mut rx) {
        RecvPoll::Ready(Event::GroupMessageDeleted { group_id, self_id, message_id }) => {
            assert_eq!(group_id, "2");
            assert_eq!(self_id, "1");
            assert_eq!(message_id, "3");
        }
        _ => panic!("expected only the recall to be published"),
    }
    assert!(matches!(s.bus().poll(&mut rx), RecvPoll::Pending));
}

fn connected(i: i64) -> Event {
    Event::Connected { name: String::new(), qq: i.to_string() }
}

fn drain(bus: &Bus, rx: &mut qqbot_core::bus::BusReceiver) -> Vec<String> {
    let mut out = Vec::new();
    loop {
        match bus.poll(rx) {
            RecvPoll::Ready(Event::Connected { qq, .. }) => out.push(qq.clone()),
            RecvPoll::Ready(_) => panic!("unexpected event kind"),
            _ => return out,
        }
    }
}

#[test]
fn broadcast_fanout_order_and_late_subscriber() {
    let mut bus = Bus::new();
    let mut r1 = bus.new_receiver();
    let mut r2 = bus.new_receiver();
    bus.publish(connected(1));
    bus.publish(connected(2));
    bus.publish(connected(3));
    let mut r3 = bus.new_receiver();
    bus.publish(connected(4));
    bus.publish(connected(5));
    assert_eq!(drain(&bus, &mut r1), vec!["1", "2", "3", "4", "5"]);
    assert_eq!(drain(&bus, &mut r2), vec!["1", "2", "3", "4", "5"]);
    assert_eq!(drain(&bus, &mut r3), vec!["4", "5"]);
    // the stream has not ended yet, so a caught-up consumer merely waits
    assert!(matches!(bus.poll(&mut r3), RecvPoll::Pending));
    bus.close();
    // once it ends, the registry appends the Closed sentinel per consumer
    assert!(matches!(bus.poll(&mut r3), RecvPoll::Ended));
    assert!(matches!(bus.poll(&mut r1), RecvPoll::Ended));
}

#[test]
fn shutdown_ends_session_stream() {
    let mut s = endpoint("example.com:1");
    let mut rx = s.register_callback();
    s.shutdown_bus();
    assert!(matches!(s.bus().poll(&mut rx), RecvPoll::Ended));
}

#[test]
fn get_group_member_rejects_bad_ids_before_any_call() {
    assert_eq!(
        get_group_member_request("12345", "not_a_number").unwrap_err(),
        BotError::InvalidId
    );
    assert_eq!(
        get_group_member_request("nope", "123").unwrap_err(),
        BotError::InvalidId
    );
    let q = get_group_member_request("12345", "678").unwrap();
    assert_eq!(q.group_id, 12345);
    assert_eq!(q.user_id, 678);
}

#[test]
fn member_info_shape() {
    let m = group_member_info_from(7, "c".to_string(), "n".to_string());
    assert_eq!(m.user_id, "7");
    assert_eq!(m.nick.as_deref(), Some("c"));
    assert_eq!(m.name.as_deref(), Some("n"));
}

#[test]
fn delete_message_parses_id() {
    assert_eq!(delete_message_request("31337").unwrap(), 31337);
    assert_eq!(
        delete_message_request("x").unwrap_err(),
        BotError::InvalidId
    );
}

#[test]
fn send_group_message_builds_request() {
    let chain = vec![Mockv2MessageChain::Plain { text: "yo".to_string() }];
    let q = send_group_message_request("44", &chain).unwrap();
    assert_eq!(q.group_id, 44);
    assert_eq!(q.segments.len(), 1);
    assert_eq!(
        send_group_message_request("bad", &chain).unwrap_err(),
        BotError::InvalidId
    );
    let bad_chain = vec![Mockv2MessageChain::Unknown { placeholder: "u".to_string() }];
    assert!(matches!(
        send_group_message_request("44", &bad_chain).unwrap_err(),
        BotError::UnsupportedSegment { .. }
    ));
}

#[test]
fn response_shaping() {
    assert_eq!(send_group_msg_resp_from(99).message_id, "99");
    let pairs = friend_pairs_from(&vec![(1, "a".to_string()), (2, "b".to_string())]);
    assert_eq!(pairs.len(), 2);
    assert_eq!(pairs[0], ("1".to_string(), "a".to_string()));
    assert_eq!(pairs[1], ("2".to_string(), "b".to_string()));
}
