use qqbot_core::bytes::ByteBuffer;
use qqbot_core::chain::{
    message_segment_to_msgchain, message_to_msgchain, msgchain_to_segments, Mockv2MessageChain,
    NodeKind, WireGroupSender, WireMessage, WireSegment,
};
use qqbot_core::errors::BotError;

fn group_msg(card: Option<&str>, nickname: Option<&str>, id: i64, segs: Vec<WireSegment>) -> WireMessage {
    WireMessage::Group {
        self_id: 1,
        group_id: 2,
        sender: WireGroupSender {
            user_id: Some(9),
            nickname: nickname.map(|s| s.to_string()),
            card: card.map(|s| s.to_string()),
        },
        message_id: id,
        message: segs,
    }
}

#[test]
fn inbound_chain_starts_with_source() {
    let m = group_msg(
        Some("alice"),
        Some("al"),
        4400,
        vec![
            WireSegment::Text { text: "hi".to_string() },
            WireSegment::At { qq: "77".to_string() },
            WireSegment::Reply { id: "55".to_string() },
        ],
    );
    let (name, chain) = message_to_msgchain(&m).unwrap();
    assert_eq!(name, "alice");
    assert_eq!(chain.len(), 4);
    assert!(matches!(&chain[0], Mockv2MessageChain::Source { id } if id == "4400"));
    assert!(matches!(&chain[1], Mockv2MessageChain::Plain { text } if text == "hi"));
    assert!(
        matches!(&chain[2], Mockv2MessageChain::At { target: 77, display: None })
    );
    assert!(matches!(&chain[3], Mockv2MessageChain::Quote { id } if id == "55"));
}

#[test]
fn sender_name_falls_back() {
    let m = group_msg(None, Some("nickname-only"), 1, vec![]);
    let (name, _) = message_to_msgchain(&m).unwrap();
    assert_eq!(name, "nickname-only");
    let m = group_msg(None, None, 1, vec![]);
    let (name, _) = message_to_msgchain(&m).unwrap();
    assert_eq!(name, "\u{672a}\u{77e5}\u{7528}\u{6237}");
    let m = WireMessage::Private {
        nickname: Some("bob".to_string()),
        message_id: 3,
        message: vec![],
    };
    let (name, _) = message_to_msgchain(&m).unwrap();
    assert_eq!(name, "bob");
}

#[test]
fn inbound_image_needs_url() {
    let seg = WireSegment::Image { file: "f".to_string(), url: None };
    assert_eq!(
        message_segment_to_msgchain(&seg).unwrap_err(),
        BotError::MissingImageUrl
    );
    let seg = WireSegment::Image {
        file: "f".to_string(),
        url: Some("http://example/i.png".to_string()),
    };
    let node = message_segment_to_msgchain(&seg).unwrap();
    assert!(
        matches!(node, Mockv2MessageChain::ImageInbound { url, image_id: None } if url == "http://example/i.png")
    );
}

#[test]
fn inbound_bad_mention_fails_message() {
    let m = group_msg(
        Some("a"),
        None,
        5,
        vec![WireSegment::At { qq: "all".to_string() }],
    );
    assert_eq!(message_to_msgchain(&m).unwrap_err(), BotError::InvalidId);
}

#[test]
fn unhandled_tag_degrades_to_unknown() {
    let seg = WireSegment::Other { tag: "video".to_string() };
    let node = message_segment_to_msgchain(&seg).unwrap();
    assert!(matches!(node, Mockv2MessageChain::Unknown { placeholder } if placeholder == "video"));
}

#[test]
fn missing_forward_content_degrades_to_error() {
    let seg = WireSegment::Forward { id: "77".to_string(), content: None };
    let node = message_segment_to_msgchain(&seg).unwrap();
    assert!(
        matches!(node, Mockv2MessageChain::Error { message }
            if message == "\u{83b7}\u{53d6}Forward\u{4fe1}\u{606f}\u{5931}\u{8d25}: 77")
    );
}

#[test]
fn forward_resolution_keeps_order_and_degrades_inner() {
    let m1 = group_msg(Some("one"), None, 11, vec![WireSegment::Text { text: "a".to_string() }]);
    let m2 = group_msg(
        Some("two"),
        None,
        22,
        vec![WireSegment::Forward { id: "lost".to_string(), content: None }],
    );
    let m3 = group_msg(Some("three"), None, 33, vec![WireSegment::Text { text: "c".to_string() }]);
    let seg = WireSegment::Forward {
        id: "outer".to_string(),
        content: Some(vec![m1, m2, m3]),
    };
    let node = message_segment_to_msgchain(&seg).unwrap();
    let items = match node {
        Mockv2MessageChain::Forward { node_list } => node_list,
        other => panic!("expected a forward node, got {:?}", other),
    };
    assert_eq!(items.len(), 3);
    assert_eq!(items[0].sender_name, "one");
    assert_eq!(items[1].sender_name, "two");
    assert_eq!(items[2].sender_name, "three");
    assert!(matches!(&items[0].message_chain[0], Mockv2MessageChain::Source { id } if id == "11"));
    assert!(matches!(&items[0].message_chain[1], Mockv2MessageChain::Plain { text } if text == "a"));
    assert_eq!(items[1].message_chain.len(), 2);
    assert!(matches!(&items[1].message_chain[0], Mockv2MessageChain::Source { id } if id == "22"));
    assert!(
        matches!(&items[1].message_chain[1], Mockv2MessageChain::Error { message }
            if message == "\u{83b7}\u{53d6}Forward\u{4fe1}\u{606f}\u{5931}\u{8d25}: lost")
    );
    assert!(matches!(&items[2].message_chain[1], Mockv2MessageChain::Plain { text } if text == "c"));
}

#[test]
fn outbound_drops_source_and_maps_nodes() {
    let chain = vec![
        Mockv2MessageChain::Source { id: "1".to_string() },
        Mockv2MessageChain::Plain { text: "hello".to_string() },
        Mockv2MessageChain::At { target: 42, display: None },
        Mockv2MessageChain::Quote { id: "9".to_string() },
    ];
    let segs = msgchain_to_segments(&chain).unwrap();
    assert_eq!(segs.len(), 3);
    assert!(matches!(&segs[0], WireSegment::Text { text } if text == "hello"));
    assert!(matches!(&segs[1], WireSegment::At { qq } if qq == "42"));
    assert!(matches!(&segs[2], WireSegment::Reply { id } if id == "9"));
}

#[test]
fn outbound_image_is_base64_uri() {
    let chain = vec![Mockv2MessageChain::ImageOutbound {
        buffer: ByteBuffer(vec![1, 2, 3]),
        mime: "image/png".to_string(),
    }];
    let segs = msgchain_to_segments(&chain).unwrap();
    assert_eq!(segs.len(), 1);
    assert!(matches!(&segs[0], WireSegment::Image { file, url: None } if file == "base64://AQID"));
}

#[test]
fn outbound_unsupported_node_fails_whole_chain() {
    let chain = vec![
        Mockv2MessageChain::Plain { text: "ok".to_string() },
        Mockv2MessageChain::Unknown { placeholder: "x".to_string() },
    ];
    assert_eq!(
        msgchain_to_segments(&chain).unwrap_err(),
        BotError::UnsupportedSegment { variant: NodeKind::Unknown }
    );
    let chain = vec![Mockv2MessageChain::Error { message: "e".to_string() }];
    assert_eq!(
        msgchain_to_segments(&chain).unwrap_err(),
        BotError::UnsupportedSegment { variant: NodeKind::Error }
    );
}

#[test]
fn round_trip_supported_kinds() {
    // outbound then inbound, with identical wire content, gives the node back
    let nodes = vec![
        Mockv2MessageChain::Plain { text: "t".to_string() },
        Mockv2MessageChain::Quote { id: "q".to_string() },
        Mockv2MessageChain::At { target: -5, display: None },
    ];
    let segs = msgchain_to_segments(&nodes).unwrap();
    assert_eq!(segs.len(), 3);
    let back0 = message_segment_to_msgchain(&segs[0]).unwrap();
    assert!(matches!(back0, Mockv2MessageChain::Plain { text } if text == "t"));
    let back1 = message_segment_to_msgchain(&segs[1]).unwrap();
    assert!(matches!(back1, Mockv2MessageChain::Quote { id } if id == "q"));
    let back2 = message_segment_to_msgchain(&segs[2]).unwrap();
    assert!(matches!(back2, Mockv2MessageChain::At { target: -5, display: None }));
}
