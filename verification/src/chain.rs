//! The neutral message-chain representation, its wire-side model, and the
//! translation between the two.
//!
//! A chain is an ordered sequence of nodes; wire order is preserved. A
//! `Forward` node nests whole chains recursively. Outbound translation
//! (`msgchain_to_segments`) drops `Source` and refuses unsupported nodes;
//! inbound translation (`message_to_msgchain`) prepends a `Source` node,
//! degrades unknown tags and missing forward content to placeholder nodes,
//! and fails the whole message on malformed required fields.
use vstd::prelude::*;
use crate::bytes::ByteBuffer;
use crate::errors::BotError;
use crate::ids::{parse_qq_id, parsed_i64, i64_to_dec_string, spec_dec_chars_i64,
    spec_dec_chars, spec_dec_value, spec_dec_digit_char, spec_all_digits, spec_is_dec_digit,
    spec_sign_digits, spec_is_negative};

verus! {

/// A node of a neutral message chain.
#[derive(Debug)]
pub enum Mockv2MessageChain {
    /// A forwarded-message bundle: each item is a sender and a nested chain.
    Forward { node_list: Vec<ForwardItem> },
    /// A reply reference to an earlier message.
    Quote { id: String },
    /// Plain text.
    Plain { text: String },
    /// A mention of one member.
    At { target: i64, display: Option<String> },
    /// The originating message id; always first in an inbound chain.
    Source { id: String },
    /// An image received from the wire, by URL.
    ImageInbound { url: String, image_id: Option<String> },
    /// An image the host sends, as raw bytes.
    ImageOutbound { buffer: ByteBuffer, mime: String },
    /// A recognized but unhandled wire tag, preserved by name.
    Unknown { placeholder: String },
    /// A placeholder substituted where resolving a sub-element failed softly.
    Error { message: String },
}

/// One entry of a `Forward` node: who sent it and what it contained.
#[derive(Debug)]
pub struct ForwardItem {
    pub sender_name: String,
    pub message_chain: Vec<Mockv2MessageChain>,
}

/// The kind of a chain node, used to report unsupported ones.
#[derive(Clone, Copy, Debug, PartialEq, Eq, Structural)]
pub enum NodeKind {
    Forward,
    Quote,
    Plain,
    At,
    Source,
    ImageInbound,
    ImageOutbound,
    Unknown,
    Error,
}

impl Mockv2MessageChain {
    /// The kind of this node.
    pub open spec fn spec_kind(self) -> NodeKind {
        match self {
            Mockv2MessageChain::Forward { .. } => NodeKind::Forward,
            Mockv2MessageChain::Quote { .. } => NodeKind::Quote,
            Mockv2MessageChain::Plain { .. } => NodeKind::Plain,
            Mockv2MessageChain::At { .. } => NodeKind::At,
            Mockv2MessageChain::Source { .. } => NodeKind::Source,
            Mockv2MessageChain::ImageInbound { .. } => NodeKind::ImageInbound,
            Mockv2MessageChain::ImageOutbound { .. } => NodeKind::ImageOutbound,
            Mockv2MessageChain::Unknown { .. } => NodeKind::Unknown,
            Mockv2MessageChain::Error { .. } => NodeKind::Error,
        }
    }

    /// Executable twin of `spec_kind`.
    pub fn kind(&self) -> (k: NodeKind)
        ensures
            k == self.spec_kind(),
    {
        match self {
            Mockv2MessageChain::Forward { .. } => NodeKind::Forward,
            Mockv2MessageChain::Quote { .. } => NodeKind::Quote,
            Mockv2MessageChain::Plain { .. } => NodeKind::Plain,
            Mockv2MessageChain::At { .. } => NodeKind::At,
            Mockv2MessageChain::Source { .. } => NodeKind::Source,
            Mockv2MessageChain::ImageInbound { .. } => NodeKind::ImageInbound,
            Mockv2MessageChain::ImageOutbound { .. } => NodeKind::ImageOutbound,
            Mockv2MessageChain::Unknown { .. } => NodeKind::Unknown,
            Mockv2MessageChain::Error { .. } => NodeKind::Error,
        }
    }
}


/// The ghost mirror of one `ForwardItem`.
pub struct ItemV {
    pub sender_name: Seq<char>,
    pub message_chain: Seq<NodeV>,
}

/// The ghost mirror of one chain node, over sequences and integers.
pub enum NodeV {
    Forward { node_list: Seq<ItemV> },
    Quote { id: Seq<char> },
    Plain { text: Seq<char> },
    At { target: int, display: Option<Seq<char>> },
    Source { id: Seq<char> },
    ImageInbound { url: Seq<char>, image_id: Option<Seq<char>> },
    ImageOutbound { buffer: Seq<u8>, mime: Seq<char> },
    Unknown { placeholder: Seq<char> },
    Error { message: Seq<char> },
}

/// The view of an optional owned string.
pub open spec fn opt_str_view(o: Option<String>) -> Option<Seq<char>> {
    match o {
        Option::Some(s) => Option::Some(s@),
        Option::None => Option::None,
    }
}

/// The ghost mirror of a chain node.
pub open spec fn node_view(n: Mockv2MessageChain) -> NodeV
    decreases n,
{
    match n {
        Mockv2MessageChain::Forward { node_list } => {
            proof {
                vstd::std_specs::vec::axiom_vec_decreases_to_view(node_list);
            }
            NodeV::Forward { node_list: items_view_of(node_list@) }
        },
        Mockv2MessageChain::Quote { id } => NodeV::Quote { id: id@ },
        Mockv2MessageChain::Plain { text } => NodeV::Plain { text: text@ },
        Mockv2MessageChain::At { target, display } => NodeV::At {
            target: target as int,
            display: opt_str_view(display),
        },
        Mockv2MessageChain::Source { id } => NodeV::Source { id: id@ },
        Mockv2MessageChain::ImageInbound { url, image_id } => NodeV::ImageInbound {
            url: url@,
            image_id: opt_str_view(image_id),
        },
        Mockv2MessageChain::ImageOutbound { buffer, mime } => NodeV::ImageOutbound {
            buffer: buffer@,
            mime: mime@,
        },
        Mockv2MessageChain::Unknown { placeholder } => NodeV::Unknown { placeholder: placeholder@ },
        Mockv2MessageChain::Error { message } => NodeV::Error { message: message@ },
    }
}

/// The ghost mirror of a sequence of forward items.
pub open spec fn items_view_of(s: Seq<ForwardItem>) -> Seq<ItemV>
    decreases s,
{
    if s.len() == 0 {
        Seq::empty()
    } else {
        proof {
            vstd::seq::axiom_seq_subrange_decreases(s, 0, s.len() - 1);
            vstd::seq::axiom_seq_index_decreases(s, s.len() - 1);
        }
        items_view_of(s.drop_last()).push(item_view(s.last()))
    }
}

/// The ghost mirror of a forward item.
pub open spec fn item_view(it: ForwardItem) -> ItemV
    decreases it,
{
    ItemV {
        sender_name: it.sender_name@,
        message_chain: {
            proof {
                vstd::std_specs::vec::axiom_vec_decreases_to_view(it.message_chain);
            }
            chain_view_of(it.message_chain@)
        },
    }
}

/// The ghost mirror of a sequence of chain nodes.
pub open spec fn chain_view_of(s: Seq<Mockv2MessageChain>) -> Seq<NodeV>
    decreases s,
{
    if s.len() == 0 {
        Seq::empty()
    } else {
        proof {
            vstd::seq::axiom_seq_subrange_decreases(s, 0, s.len() - 1);
            vstd::seq::axiom_seq_index_decreases(s, s.len() - 1);
        }
        chain_view_of(s.drop_last()).push(node_view(s.last()))
    }
}

/// The ghost mirror of a whole owned chain.
pub open spec fn chain_view(v: Vec<Mockv2MessageChain>) -> Seq<NodeV> {
    chain_view_of(v@)
}

impl View for Mockv2MessageChain {
    type V = NodeV;

    open spec fn view(&self) -> NodeV {
        node_view(*self)
    }
}

impl View for ForwardItem {
    type V = ItemV;

    open spec fn view(&self) -> ItemV {
        item_view(*self)
    }
}

/// `chain_view_of` maps `node_view` over the sequence, index by index.
pub proof fn lemma_chain_view_of(s: Seq<Mockv2MessageChain>)
    ensures
        chain_view_of(s).len() == s.len(),
        forall|i: int| 0 <= i < s.len() ==> chain_view_of(s)[i] == node_view(#[trigger] s[i]),
    decreases s.len(),
{
    if s.len() > 0 {
        lemma_chain_view_of(s.drop_last());
        assert forall|i: int| 0 <= i < s.len() implies chain_view_of(s)[i] == node_view(#[trigger] s[i]) by {
            if i < s.len() - 1 {
                assert(chain_view_of(s)[i] == chain_view_of(s.drop_last())[i]);
                assert(s.drop_last()[i] == s[i]);
            } else {
                assert(chain_view_of(s)[i] == node_view(s.last()));
            }
        }
    }
}

/// `items_view_of` maps `item_view` over the sequence, index by index.
pub proof fn lemma_items_view_of(s: Seq<ForwardItem>)
    ensures
        items_view_of(s).len() == s.len(),
        forall|i: int| 0 <= i < s.len() ==> items_view_of(s)[i] == item_view(#[trigger] s[i]),
    decreases s.len(),
{
    if s.len() > 0 {
        lemma_items_view_of(s.drop_last());
        assert forall|i: int| 0 <= i < s.len() implies items_view_of(s)[i] == item_view(#[trigger] s[i]) by {
            if i < s.len() - 1 {
                assert(items_view_of(s)[i] == items_view_of(s.drop_last())[i]);
                assert(s.drop_last()[i] == s[i]);
            } else {
                assert(items_view_of(s)[i] == item_view(s.last()));
            }
        }
    }
}

/// One wire message segment, modelled with the fields the translation
/// reads: the plain shape of the gateway's segment objects.
#[derive(Debug)]
pub enum WireSegment {
    /// Plain text.
    Text { text: String },
    /// A mention; the target is a decimal id string on the wire.
    At { qq: String },
    /// An image; inbound ones carry a URL, outbound ones only a file.
    Image { file: String, url: Option<String> },
    /// A reply reference.
    Reply { id: String },
    /// A forwarded bundle; the nested messages may or may not be inlined.
    Forward { id: String, content: Option<Vec<WireMessage>> },
    /// Any recognized segment the translation does not handle specially,
    /// by its wire type tag.
    Other { tag: String },
}

/// The sender block of a group wire message.
#[derive(Debug)]
pub struct WireGroupSender {
    pub user_id: Option<i64>,
    pub nickname: Option<String>,
    pub card: Option<String>,
}

/// One wire message, private or group-scoped.
#[derive(Debug)]
pub enum WireMessage {
    Private { nickname: Option<String>, message_id: i64, message: Vec<WireSegment> },
    Group {
        self_id: i64,
        group_id: i64,
        sender: WireGroupSender,
        message_id: i64,
        message: Vec<WireSegment>,
    },
}

/// The ghost mirror of one wire segment.
pub enum WireSegV {
    Text { text: Seq<char> },
    At { qq: Seq<char> },
    Image { file: Seq<char>, url: Option<Seq<char>> },
    Reply { id: Seq<char> },
    Forward { id: Seq<char>, content: Option<Seq<WireMsgV>> },
    Other { tag: Seq<char> },
}

/// The ghost mirror of one wire sender block.
pub struct WireGroupSenderV {
    pub user_id: Option<int>,
    pub nickname: Option<Seq<char>>,
    pub card: Option<Seq<char>>,
}

/// The ghost mirror of one wire message.
pub enum WireMsgV {
    Private { nickname: Option<Seq<char>>, message_id: int, message: Seq<WireSegV> },
    Group {
        self_id: int,
        group_id: int,
        sender: WireGroupSenderV,
        message_id: int,
        message: Seq<WireSegV>,
    },
}

/// The ghost mirror of a wire segment.
pub open spec fn wire_segment_view(seg: WireSegment) -> WireSegV
    decreases seg,
{
    match seg {
        WireSegment::Text { text } => WireSegV::Text { text: text@ },
        WireSegment::At { qq } => WireSegV::At { qq: qq@ },
        WireSegment::Image { file, url } => WireSegV::Image {
            file: file@,
            url: opt_str_view(url),
        },
        WireSegment::Reply { id } => WireSegV::Reply { id: id@ },
        WireSegment::Forward { id, content } => WireSegV::Forward {
            id: id@,
            content: match content {
                Option::Some(msgs) => {
                    proof {
                        vstd::std_specs::vec::axiom_vec_decreases_to_view(msgs);
                    }
                    Option::Some(wire_msgs_view_of(msgs@))
                },
                Option::None => Option::None,
            },
        },
        WireSegment::Other { tag } => WireSegV::Other { tag: tag@ },
    }
}

/// The ghost mirror of a sequence of wire messages.
pub open spec fn wire_msgs_view_of(s: Seq<WireMessage>) -> Seq<WireMsgV>
    decreases s,
{
    if s.len() == 0 {
        Seq::empty()
    } else {
        proof {
            vstd::seq::axiom_seq_subrange_decreases(s, 0, s.len() - 1);
            vstd::seq::axiom_seq_index_decreases(s, s.len() - 1);
        }
        wire_msgs_view_of(s.drop_last()).push(wire_message_view(s.last()))
    }
}

/// The ghost mirror of a sequence of wire segments.
pub open spec fn wire_segs_view_of(s: Seq<WireSegment>) -> Seq<WireSegV>
    decreases s,
{
    if s.len() == 0 {
        Seq::empty()
    } else {
        proof {
            vstd::seq::axiom_seq_subrange_decreases(s, 0, s.len() - 1);
            vstd::seq::axiom_seq_index_decreases(s, s.len() - 1);
        }
        wire_segs_view_of(s.drop_last()).push(wire_segment_view(s.last()))
    }
}

/// The ghost mirror of a wire message.
pub open spec fn wire_message_view(m: WireMessage) -> WireMsgV
    decreases m,
{
    match m {
        WireMessage::Private { nickname, message_id, message } => WireMsgV::Private {
            nickname: opt_str_view(nickname),
            message_id: message_id as int,
            message: {
                proof {
                    vstd::std_specs::vec::axiom_vec_decreases_to_view(message);
                }
                wire_segs_view_of(message@)
            },
        },
        WireMessage::Group { self_id, group_id, sender, message_id, message } => WireMsgV::Group {
            self_id: self_id as int,
            group_id: group_id as int,
            sender: WireGroupSenderV {
                user_id: match sender.user_id {
                    Option::Some(u) => Option::Some(u as int),
                    Option::None => Option::None,
                },
                nickname: opt_str_view(sender.nickname),
                card: opt_str_view(sender.card),
            },
            message_id: message_id as int,
            message: {
                proof {
                    vstd::std_specs::vec::axiom_vec_decreases_to_view(message);
                }
                wire_segs_view_of(message@)
            },
        },
    }
}

/// `wire_segs_view_of` maps `wire_segment_view` index by index.
pub proof fn lemma_wire_segs_view_of(s: Seq<WireSegment>)
    ensures
        wire_segs_view_of(s).len() == s.len(),
        forall|i: int|
            0 <= i < s.len() ==> wire_segs_view_of(s)[i] == wire_segment_view(#[trigger] s[i]),
    decreases s.len(),
{
    if s.len() > 0 {
        lemma_wire_segs_view_of(s.drop_last());
        assert forall|i: int| 0 <= i < s.len() implies wire_segs_view_of(s)[i] == wire_segment_view(#[trigger] s[i]) by {
            if i < s.len() - 1 {
                assert(wire_segs_view_of(s)[i] == wire_segs_view_of(s.drop_last())[i]);
                assert(s.drop_last()[i] == s[i]);
            } else {
                assert(wire_segs_view_of(s)[i] == wire_segment_view(s.last()));
            }
        }
    }
}

/// `wire_msgs_view_of` maps `wire_message_view` index by index.
pub proof fn lemma_wire_msgs_view_of(s: Seq<WireMessage>)
    ensures
        wire_msgs_view_of(s).len() == s.len(),
        forall|i: int|
            0 <= i < s.len() ==> wire_msgs_view_of(s)[i] == wire_message_view(#[trigger] s[i]),
    decreases s.len(),
{
    if s.len() > 0 {
        lemma_wire_msgs_view_of(s.drop_last());
        assert forall|i: int| 0 <= i < s.len() implies wire_msgs_view_of(s)[i] == wire_message_view(#[trigger] s[i]) by {
            if i < s.len() - 1 {
                assert(wire_msgs_view_of(s)[i] == wire_msgs_view_of(s.drop_last())[i]);
                assert(s.drop_last()[i] == s[i]);
            } else {
                assert(wire_msgs_view_of(s)[i] == wire_message_view(s.last()));
            }
        }
    }
}

impl View for WireSegment {
    type V = WireSegV;

    open spec fn view(&self) -> WireSegV {
        wire_segment_view(*self)
    }
}

impl View for WireMessage {
    type V = WireMsgV;

    open spec fn view(&self) -> WireMsgV {
        wire_message_view(*self)
    }
}

/// The sender name reported when the wire message names none.
pub open spec fn spec_unnamed() -> Seq<char> {
    "\u{672a}\u{77e5}\u{7528}\u{6237}"@
}

/// What precedes the forward id in the placeholder for a forward segment
/// whose nested content the peer did not inline.
pub open spec fn spec_forward_error_prefix() -> Seq<char> {
    "\u{83b7}\u{53d6}Forward\u{4fe1}\u{606f}\u{5931}\u{8d25}: "@
}

/// The display name the translation reports for a message: a group
/// member's card if present, else the nickname, else the unnamed
/// placeholder.
pub open spec fn spec_sender_name(m: WireMsgV) -> Seq<char> {
    match m {
        WireMsgV::Private { nickname, .. } => match nickname {
            Option::Some(n) => n,
            Option::None => spec_unnamed(),
        },
        WireMsgV::Group { sender, .. } => match sender.card {
            Option::Some(c) => c,
            Option::None => match sender.nickname {
                Option::Some(n) => n,
                Option::None => spec_unnamed(),
            },
        },
    }
}

/// What translating one wire segment yields: a node, or the hard failure
/// that aborts the containing message. A forward segment without inline
/// content degrades softly to an `Error` node; an unhandled tag degrades
/// to `Unknown`.
pub open spec fn spec_translate_segment(seg: WireSegV) -> Result<NodeV, BotError>
    decreases seg,
{
    match seg {
        WireSegV::Text { text } => Ok(NodeV::Plain { text }),
        WireSegV::At { qq } => match parsed_i64(qq) {
            Option::Some(v) => Ok(NodeV::At { target: v, display: Option::None }),
            Option::None => Err(BotError::InvalidId),
        },
        WireSegV::Image { file, url } => match url {
            Option::Some(u) => Ok(NodeV::ImageInbound { url: u, image_id: Option::None }),
            Option::None => Err(BotError::MissingImageUrl),
        },
        WireSegV::Reply { id } => Ok(NodeV::Quote { id }),
        WireSegV::Forward { id, content } => match content {
            Option::None => Ok(NodeV::Error { message: spec_forward_error_prefix() + id }),
            Option::Some(msgs) => match spec_translate_items(msgs) {
                Ok(items) => Ok(NodeV::Forward { node_list: items }),
                Err(e) => Err(e),
            },
        },
        WireSegV::Other { tag } => Ok(NodeV::Unknown { placeholder: tag }),
    }
}

/// Translates the nested messages of a forward bundle in order; the first
/// failing message, in index order, fails the bundle.
pub open spec fn spec_translate_items(msgs: Seq<WireMsgV>) -> Result<Seq<ItemV>, BotError>
    decreases msgs,
{
    if msgs.len() == 0 {
        Ok(Seq::empty())
    } else {
        proof {
            vstd::seq::axiom_seq_subrange_decreases(msgs, 0, msgs.len() - 1);
            vstd::seq::axiom_seq_index_decreases(msgs, msgs.len() - 1);
        }
        match spec_translate_items(msgs.drop_last()) {
            Err(e) => Err(e),
            Ok(items) => match spec_translate_message(msgs.last()) {
                Err(e) => Err(e),
                Ok(nc) => Ok(items.push(ItemV { sender_name: nc.0, message_chain: nc.1 })),
            },
        }
    }
}

/// Translates a run of wire segments in order; the first failing segment,
/// in index order, fails the run.
pub open spec fn spec_translate_segments(segs: Seq<WireSegV>) -> Result<Seq<NodeV>, BotError>
    decreases segs,
{
    if segs.len() == 0 {
        Ok(Seq::empty())
    } else {
        proof {
            vstd::seq::axiom_seq_subrange_decreases(segs, 0, segs.len() - 1);
            vstd::seq::axiom_seq_index_decreases(segs, segs.len() - 1);
        }
        match spec_translate_segments(segs.drop_last()) {
            Err(e) => Err(e),
            Ok(nodes) => match spec_translate_segment(segs.last()) {
                Err(e) => Err(e),
                Ok(node) => Ok(nodes.push(node)),
            },
        }
    }
}

/// The segments of a wire message, private or group.
pub open spec fn spec_msg_segments(m: WireMsgV) -> Seq<WireSegV> {
    match m {
        WireMsgV::Private { message, .. } => message,
        WireMsgV::Group { message, .. } => message,
    }
}

/// The id of a wire message, private or group.
pub open spec fn spec_msg_id(m: WireMsgV) -> int {
    match m {
        WireMsgV::Private { message_id, .. } => message_id,
        WireMsgV::Group { message_id, .. } => message_id,
    }
}

/// What translating one inbound wire message yields: the sender's display
/// name, and the chain with `Source` first carrying the message id; or
/// the first hard failure among its segments.
pub open spec fn spec_translate_message(m: WireMsgV) -> Result<(Seq<char>, Seq<NodeV>), BotError>
    decreases m,
{
    match m {
        WireMsgV::Private { nickname, message_id, message } => match spec_translate_segments(
            message,
        ) {
            Err(e) => Err(e),
            Ok(nodes) => Ok(
                (
                    spec_sender_name(m),
                    seq![NodeV::Source { id: spec_dec_chars_i64(message_id) }] + nodes,
                ),
            ),
        },
        WireMsgV::Group { self_id, group_id, sender, message_id, message } => match spec_translate_segments(
            message,
        ) {
            Err(e) => Err(e),
            Ok(nodes) => Ok(
                (
                    spec_sender_name(m),
                    seq![NodeV::Source { id: spec_dec_chars_i64(message_id) }] + nodes,
                ),
            ),
        },
    }
}

/// If every segment before `j` translates and segment `j` fails, the run
/// fails with exactly segment `j`'s error.
pub proof fn lemma_segments_first_error(s: Seq<WireSegV>, j: int)
    requires
        0 <= j < s.len(),
        spec_translate_segments(s.take(j)) is Ok,
        spec_translate_segment(s[j]) is Err,
    ensures
        spec_translate_segments(s) == Result::<Seq<NodeV>, BotError>::Err(
            spec_translate_segment(s[j])->Err_0,
        ),
    decreases s.len(),
{
    if j == s.len() - 1 {
        assert(s.take(j) =~= s.drop_last());
        assert(s.last() == s[j]);
    } else {
        assert(s.drop_last().take(j) =~= s.take(j));
        assert(s.drop_last()[j] == s[j]);
        lemma_segments_first_error(s.drop_last(), j);
    }
}

/// If every nested message before `j` translates and message `j` fails,
/// the bundle fails with exactly message `j`'s error.
pub proof fn lemma_items_first_error(s: Seq<WireMsgV>, j: int)
    requires
        0 <= j < s.len(),
        spec_translate_items(s.take(j)) is Ok,
        spec_translate_message(s[j]) is Err,
    ensures
        spec_translate_items(s) == Result::<Seq<ItemV>, BotError>::Err(
            spec_translate_message(s[j])->Err_0,
        ),
    decreases s.len(),
{
    if j == s.len() - 1 {
        assert(s.take(j) =~= s.drop_last());
        assert(s.last() == s[j]);
    } else {
        assert(s.drop_last().take(j) =~= s.take(j));
        assert(s.drop_last()[j] == s[j]);
        lemma_items_first_error(s.drop_last(), j);
    }
}

fn unnamed_string() -> (r: String)
    ensures
        r@ == spec_unnamed(),
{
    String::from_str("\u{672a}\u{77e5}\u{7528}\u{6237}")
}

fn forward_error_message(id: &String) -> (r: String)
    ensures
        r@ == spec_forward_error_prefix() + id@,
{
    let mut s = String::from_str("\u{83b7}\u{53d6}Forward\u{4fe1}\u{606f}\u{5931}\u{8d25}: ");
    s.append(id.as_str());
    s
}

/// Translates one wire segment to a neutral node, exactly as
/// `spec_translate_segment` says: a forward bundle's nested messages are
/// resolved recursively, joined by original index.
pub fn message_segment_to_msgchain(segment: &WireSegment) -> (r: Result<
    Mockv2MessageChain,
    BotError,
>)
    ensures
        r is Ok <==> spec_translate_segment(segment@) is Ok,
        r is Ok ==> r->Ok_0@ == spec_translate_segment(segment@)->Ok_0,
        r is Err ==> r->Err_0 == spec_translate_segment(segment@)->Err_0,
    decreases *segment,
{
    match segment {
        WireSegment::Text { text } => Ok(Mockv2MessageChain::Plain { text: text.clone() }),
        WireSegment::At { qq } => match parse_qq_id(qq.as_str()) {
            Ok(v) => Ok(Mockv2MessageChain::At { target: v, display: None }),
            Err(e) => Err(e),
        },
        WireSegment::Image { file: _, url } => match url {
            Some(u) => Ok(Mockv2MessageChain::ImageInbound { url: u.clone(), image_id: None }),
            None => Err(BotError::MissingImageUrl),
        },
        WireSegment::Reply { id } => Ok(Mockv2MessageChain::Quote { id: id.clone() }),
        WireSegment::Forward { id, content } => match content {
            None => Ok(Mockv2MessageChain::Error { message: forward_error_message(id) }),
            Some(msgs) => {
                let ghost msv = wire_msgs_view_of(msgs@);
                let ghost idv = id@;
                proof {
                    lemma_wire_msgs_view_of(msgs@);
                }
                let mut items: Vec<ForwardItem> = Vec::new();
                let mut j: usize = 0;
                while j < msgs.len()
                    invariant
                        0 <= j <= msgs.len(),
                        msv == wire_msgs_view_of(msgs@),
                        msv.len() == msgs@.len(),
                        forall|k: int|
                            0 <= k < msgs@.len() ==> msv[k] == wire_message_view(
                                #[trigger] msgs@[k],
                            ),
                        items@.len() == j,
                        spec_translate_items(msv.take(j as int)) == Ok::<_, BotError>(
                            items_view_of(items@),
                        ),
                        wire_segment_view(*segment) == (WireSegV::Forward {
                            id: idv,
                            content: Option::Some(msv),
                        }),
                        *segment is Forward,
                        (*segment)->Forward_content == Option::Some(*msgs),
                    decreases msgs@.len() - j,
                {
                    proof {
                        vstd::std_specs::vec::axiom_vec_index_decreases(*msgs, j as int);
                        assert(decreases_to!(*segment => *msgs)) by {
                            assert(decreases_to!(*segment => (*segment)->Forward_content));
                            assert(decreases_to!((*segment)->Forward_content => ((*segment)->Forward_content)->0));
                            assert(((*segment)->Forward_content)->0 == *msgs);
                        }
                        assert(decreases_to!(*segment => msgs@[j as int]));
                    }
                    let ghost prev = items@;
                    match message_to_msgchain(&msgs[j]) {
                        Err(e) => {
                            proof {
                                lemma_items_first_error(msv, j as int);
                            }
                            return Err(e);
                        },
                        Ok((name, chain)) => {
                            let it = ForwardItem { sender_name: name, message_chain: chain };
                            items.push(it);
                            proof {
                                lemma_items_view_of(prev);
                                lemma_items_view_of(items@);
                                assert(items@.drop_last() =~= prev);
                                assert(items_view_of(items@) =~= items_view_of(prev).push(
                                    item_view(it),
                                ));
                                assert(msv.take(j + 1).drop_last() =~= msv.take(j as int));
                                assert(msv.take(j + 1).last() == msv[j as int]);
                            }
                        },
                    }
                    j = j + 1;
                }
                proof {
                    assert(msv.take(msgs@.len() as int) =~= msv);
                }
                Ok(Mockv2MessageChain::Forward { node_list: items })
            },
        },
        WireSegment::Other { tag } => Ok(Mockv2MessageChain::Unknown { placeholder: tag.clone() }),
    }
}

/// Translates one inbound wire message to `(sender name, chain)` exactly
/// as `spec_translate_message` says; the chain starts with `Source`
/// carrying the message id.
pub fn message_to_msgchain(message: &WireMessage) -> (r: Result<
    (String, Vec<Mockv2MessageChain>),
    BotError,
>)
    ensures
        r is Ok <==> spec_translate_message(message@) is Ok,
        r is Ok ==> ({
            &&& r->Ok_0.0@ == spec_translate_message(message@)->Ok_0.0
            &&& chain_view(r->Ok_0.1) == spec_translate_message(message@)->Ok_0.1
        }),
        r is Err ==> r->Err_0 == spec_translate_message(message@)->Err_0,
    decreases *message,
{
    let name: String = match message {
        WireMessage::Private { nickname, .. } => match nickname {
            Some(n) => n.clone(),
            None => unnamed_string(),
        },
        WireMessage::Group { sender, .. } => match &sender.card {
            Some(c) => c.clone(),
            None => match &sender.nickname {
                Some(n) => n.clone(),
                None => unnamed_string(),
            },
        },
    };
    let mid: i64 = match message {
        WireMessage::Private { message_id, .. } => *message_id,
        WireMessage::Group { message_id, .. } => *message_id,
    };
    let segs: &Vec<WireSegment> = match message {
        WireMessage::Private { message: m, .. } => m,
        WireMessage::Group { message: m, .. } => m,
    };
    let ghost sv = wire_segs_view_of(segs@);
    proof {
        lemma_wire_segs_view_of(segs@);
    }
    let ghost source_node = NodeV::Source { id: spec_dec_chars_i64(mid as int) };
    let mut chain: Vec<Mockv2MessageChain> = Vec::new();
    chain.push(Mockv2MessageChain::Source { id: i64_to_dec_string(mid) });
    proof {
        lemma_chain_view_of(chain@);
        assert(sv.take(0) =~= Seq::<WireSegV>::empty());
        assert(chain_view_of(chain@).subrange(1, chain@.len() as int) =~= Seq::<NodeV>::empty());
    }
    let mut j: usize = 0;
    while j < segs.len()
        invariant
            0 <= j <= segs.len(),
            sv == wire_segs_view_of(segs@),
            sv.len() == segs@.len(),
            forall|k: int|
                0 <= k < segs@.len() ==> sv[k] == wire_segment_view(#[trigger] segs@[k]),
            chain@.len() == j + 1,
            source_node == (NodeV::Source { id: spec_dec_chars_i64(mid as int) }),
            chain_view_of(chain@)[0] == source_node,
            chain_view_of(chain@).len() == j + 1,
            spec_translate_segments(sv.take(j as int)) == Ok::<_, BotError>(
                chain_view_of(chain@).subrange(1, chain@.len() as int),
            ),
            spec_msg_segments(message@) == sv,
            spec_msg_id(message@) == mid as int,
            spec_sender_name(message@) == name@,
            (*message) is Private ==> (*message)->Private_message == *segs,
            (*message) is Group ==> (*message)->Group_message == *segs,
        decreases segs@.len() - j,
    {
        proof {
            vstd::std_specs::vec::axiom_vec_index_decreases(*segs, j as int);
            assert(decreases_to!(*message => *segs)) by {
                if (*message) is Private {
                    assert(decreases_to!(*message => (*message)->Private_message));
                } else {
                    assert(decreases_to!(*message => (*message)->Group_message));
                }
            }
            assert(decreases_to!(*message => segs@[j as int]));
        }
        let ghost prev = chain@;
        match message_segment_to_msgchain(&segs[j]) {
            Err(e) => {
                proof {
                    lemma_segments_first_error(sv, j as int);
                }
                return Err(e);
            },
            Ok(node) => {
                let ghost nodev = node@;
                chain.push(node);
                proof {
                    lemma_chain_view_of(prev);
                    lemma_chain_view_of(chain@);
                    assert(chain@.drop_last() =~= prev);
                    assert(chain_view_of(chain@) =~= chain_view_of(prev).push(nodev));
                    assert(sv.take(j + 1).drop_last() =~= sv.take(j as int));
                    assert(sv.take(j + 1).last() == sv[j as int]);
                    assert(chain_view_of(chain@).subrange(1, chain@.len() as int)
                        =~= chain_view_of(prev).subrange(1, prev.len() as int).push(nodev));
                }
            },
        }
        j = j + 1;
    }
    proof {
        assert(sv.take(segs@.len() as int) =~= sv);
        let nodes = spec_translate_segments(sv)->Ok_0;
        assert(chain_view_of(chain@) =~= seq![source_node] + nodes);
    }
    Ok((name, chain))
}

/// The standard-alphabet, padded base64 encoding of a byte sequence, as
/// the base64 engine computes it.
pub uninterp spec fn spec_base64_chars(b: Seq<u8>) -> Seq<char>;

/// Relies on base64's `Engine::encode` with the standard padded alphabet:
/// the output is a function of the input bytes alone, four characters for
/// every three-byte block, the last block padded.
#[verifier::external_body]
fn base64_encode(b: &[u8]) -> (r: String)
    ensures
        r@ == spec_base64_chars(b@),
        r@.len() == 4 * ((b@.len() + 2) / 3),
{
    base64::engine::Engine::encode(&base64::engine::general_purpose::STANDARD, b)
}

/// The data-URI form an outbound image is sent as.
pub open spec fn spec_base64_uri(b: Seq<u8>) -> Seq<char> {
    "base64://"@ + spec_base64_chars(b)
}

/// The kind of a ghost chain node.
pub open spec fn spec_nodev_kind(n: NodeV) -> NodeKind {
    match n {
        NodeV::Forward { .. } => NodeKind::Forward,
        NodeV::Quote { .. } => NodeKind::Quote,
        NodeV::Plain { .. } => NodeKind::Plain,
        NodeV::At { .. } => NodeKind::At,
        NodeV::Source { .. } => NodeKind::Source,
        NodeV::ImageInbound { .. } => NodeKind::ImageInbound,
        NodeV::ImageOutbound { .. } => NodeKind::ImageOutbound,
        NodeV::Unknown { .. } => NodeKind::Unknown,
        NodeV::Error { .. } => NodeKind::Error,
    }
}

/// What sending one neutral node over the wire yields: its segment, `None`
/// for `Source` (which has no wire form), or the failure that invalidates
/// the whole outbound chain for a node kind that cannot be sent.
pub open spec fn spec_node_to_segment(n: NodeV) -> Result<Option<WireSegV>, BotError> {
    match n {
        NodeV::Quote { id } => Ok(Option::Some(WireSegV::Reply { id })),
        NodeV::Plain { text } => Ok(Option::Some(WireSegV::Text { text })),
        NodeV::At { target, display } => Ok(
            Option::Some(WireSegV::At { qq: spec_dec_chars_i64(target) }),
        ),
        NodeV::ImageOutbound { buffer, mime } => Ok(
            Option::Some(WireSegV::Image { file: spec_base64_uri(buffer), url: Option::None }),
        ),
        NodeV::Source { .. } => Ok(Option::None),
        _ => Err(BotError::UnsupportedSegment { variant: spec_nodev_kind(n) }),
    }
}

/// Maps a neutral chain to its outbound wire segments in order, dropping
/// `Source`; the first unsupported node, in index order, fails the whole
/// chain.
pub open spec fn spec_chain_to_segments(nodes: Seq<NodeV>) -> Result<Seq<WireSegV>, BotError>
    decreases nodes,
{
    if nodes.len() == 0 {
        Ok(Seq::empty())
    } else {
        proof {
            vstd::seq::axiom_seq_subrange_decreases(nodes, 0, nodes.len() - 1);
        }
        match spec_chain_to_segments(nodes.drop_last()) {
            Err(e) => Err(e),
            Ok(segs) => match spec_node_to_segment(nodes.last()) {
                Err(e) => Err(e),
                Ok(Option::None) => Ok(segs),
                Ok(Option::Some(sg)) => Ok(segs.push(sg)),
            },
        }
    }
}

/// If every node before `j` maps and node `j` is unsupported, the chain
/// fails with exactly node `j`'s error.
pub proof fn lemma_chain_to_segments_first_error(s: Seq<NodeV>, j: int)
    requires
        0 <= j < s.len(),
        spec_chain_to_segments(s.take(j)) is Ok,
        spec_node_to_segment(s[j]) is Err,
    ensures
        spec_chain_to_segments(s) == Result::<Seq<WireSegV>, BotError>::Err(
            spec_node_to_segment(s[j])->Err_0,
        ),
    decreases s.len(),
{
    if j == s.len() - 1 {
        assert(s.take(j) =~= s.drop_last());
        assert(s.last() == s[j]);
    } else {
        assert(s.drop_last().take(j) =~= s.take(j));
        assert(s.drop_last()[j] == s[j]);
        lemma_chain_to_segments_first_error(s.drop_last(), j);
    }
}

/// Maps a neutral chain to outbound wire segments exactly as
/// `spec_chain_to_segments` says: `Source` nodes are dropped, a single
/// unsupported node fails the whole conversion, nothing partial is kept.
pub fn msgchain_to_segments(msgchain: &[Mockv2MessageChain]) -> (r: Result<
    Vec<WireSegment>,
    BotError,
>)
    ensures
        r is Ok <==> spec_chain_to_segments(chain_view_of(msgchain@)) is Ok,
        r is Ok ==> wire_segs_view_of(r->Ok_0@) == spec_chain_to_segments(
            chain_view_of(msgchain@),
        )->Ok_0,
        r is Err ==> r->Err_0 == spec_chain_to_segments(chain_view_of(msgchain@))->Err_0,
{
    let ghost cv = chain_view_of(msgchain@);
    proof {
        lemma_chain_view_of(msgchain@);
    }
    let mut segments: Vec<WireSegment> = Vec::new();
    let mut j: usize = 0;
    while j < msgchain.len()
        invariant
            0 <= j <= msgchain@.len(),
            cv == chain_view_of(msgchain@),
            cv.len() == msgchain@.len(),
            forall|k: int| 0 <= k < msgchain@.len() ==> cv[k] == node_view(#[trigger] msgchain@[k]),
            spec_chain_to_segments(cv.take(j as int)) == Ok::<_, BotError>(
                wire_segs_view_of(segments@),
            ),
        decreases msgchain@.len() - j,
    {
        let ghost prevsegs = segments@;
        let node = &msgchain[j];
        let emitted: Option<WireSegment> = match node {
            Mockv2MessageChain::Quote { id } => Some(WireSegment::Reply { id: id.clone() }),
            Mockv2MessageChain::Plain { text } => Some(WireSegment::Text { text: text.clone() }),
            Mockv2MessageChain::At { target, display: _ } => Some(
                WireSegment::At { qq: i64_to_dec_string(*target) },
            ),
            Mockv2MessageChain::ImageOutbound { buffer, mime: _ } => {
                let mut file = String::from_str("base64://");
                let encoded = base64_encode(buffer.0.as_slice());
                file.append(encoded.as_str());
                Some(WireSegment::Image { file, url: None })
            },
            Mockv2MessageChain::Source { .. } => None,
            _ => {
                proof {
                    lemma_chain_to_segments_first_error(cv, j as int);
                }
                return Err(BotError::UnsupportedSegment { variant: node.kind() });
            },
        };
        proof {
            assert(cv.take(j + 1).drop_last() =~= cv.take(j as int));
            assert(cv.take(j + 1).last() == cv[j as int]);
        }
        match emitted {
            Some(sg) => {
                let ghost sgv = wire_segment_view(sg);
                segments.push(sg);
                proof {
                    lemma_wire_segs_view_of(prevsegs);
                    lemma_wire_segs_view_of(segments@);
                    assert(segments@.drop_last() =~= prevsegs);
                    assert(wire_segs_view_of(segments@) =~= wire_segs_view_of(prevsegs).push(sgv));
                }
            },
            None => {},
        }
        j = j + 1;
    }
    proof {
        assert(cv.take(msgchain@.len() as int) =~= cv);
    }
    Ok(segments)
}

proof fn lemma_dec_chars_all_digits(n: int)
    requires
        n >= 0,
    ensures
        spec_all_digits(spec_dec_chars(n)),
        spec_dec_chars(n).len() >= 1,
    decreases n,
{
    if n >= 10 {
        lemma_dec_chars_all_digits(n / 10);
        let t = spec_dec_chars(n / 10);
        let w = spec_dec_chars(n);
        assert(w == t.push(spec_dec_digit_char(n % 10)));
        assert forall|i: int| 0 <= i < w.len() implies spec_is_dec_digit(w[i]) by {
            if i < t.len() {
                assert(w[i] == t[i]);
            }
        }
    }
}

proof fn lemma_dec_value_of_dec_chars(n: int)
    requires
        n >= 0,
    ensures
        spec_dec_value(spec_dec_chars(n)) == n,
    decreases n,
{
    if n < 10 {
        let w = spec_dec_chars(n);
        lemma_digit_char_code(n);
        assert(w == seq![spec_dec_digit_char(n)]);
        assert(w.len() == 1);
        assert(w.drop_last() =~= Seq::<char>::empty());
        assert(w.last() == spec_dec_digit_char(n));
        assert(spec_dec_value(w.drop_last()) == 0);
        assert(spec_dec_value(w) == spec_dec_value(w.drop_last()) * 10 + (w.last() as int - 48));
        assert(spec_dec_value(w) == n);
    } else {
        lemma_dec_value_of_dec_chars(n / 10);
        vstd::arithmetic::div_mod::lemma_fundamental_div_mod(n, 10);
        vstd::arithmetic::div_mod::lemma_mod_bound(n, 10);
        lemma_digit_char_code(n % 10);
        let t = spec_dec_chars(n / 10);
        let w = spec_dec_chars(n);
        assert(w == t.push(spec_dec_digit_char(n % 10)));
        assert(w.drop_last() =~= t);
        assert(spec_dec_value(w) == n / 10 * 10 + (spec_dec_digit_char(n % 10) as int - 48));
    }
}

proof fn lemma_digit_char_code(d: int)
    requires
        0 <= d < 10,
    ensures
        spec_dec_digit_char(d) as int == 48 + d,
{
}

/// Parsing the canonical decimal form of a 64-bit value gives the value
/// back: formatting loses nothing.
pub proof fn lemma_parse_of_dec_chars_i64(v: int)
    requires
        i64::MIN <= v <= i64::MAX,
    ensures
        parsed_i64(spec_dec_chars_i64(v)) == Option::Some(v),
{
    if v >= 0 {
        let w = spec_dec_chars(v);
        lemma_dec_chars_all_digits(v);
        lemma_dec_value_of_dec_chars(v);
        assert(spec_is_dec_digit(w[0]));
        assert(w[0] != '+' && w[0] != '-');
        assert(spec_sign_digits(w) == w);
        assert(!spec_is_negative(w));
    } else {
        let m = -v;
        let w = spec_dec_chars_i64(v);
        lemma_dec_chars_all_digits(m);
        lemma_dec_value_of_dec_chars(m);
        assert(w == seq!['-'] + spec_dec_chars(m));
        assert(w[0] == '-');
        assert(spec_is_negative(w));
        assert(spec_sign_digits(w) =~= spec_dec_chars(m));
    }
}

/// Wire round trip: a `Plain`, a `Quote`, or an `At` without display
/// translates outbound to a wire segment which, given identical wire
/// content, translates back to the same node. `Source` is dropped
/// outbound and synthesized inbound; `Unknown` and `Error` are
/// inbound-only placeholders; an outbound image returns only as
/// `ImageInbound` with whatever URL the peer attaches. Those kinds are
/// one-directional by design.
pub proof fn lemma_node_round_trip(n: NodeV)
    requires
        n is Plain || n is Quote || (n is At && n->At_display is None),
        n is At ==> i64::MIN <= n->At_target <= i64::MAX,
    ensures
        spec_node_to_segment(n) matches Ok(o) && o matches Some(seg) && spec_translate_segment(
            seg,
        ) == Ok::<NodeV, BotError>(n),
{
    if n is At {
        lemma_parse_of_dec_chars_i64(n->At_target);
    }
}

} // verus!
