//! The session: one connection's lifecycle and its event loop's decisions.
//!
//! A session is constructed "new", may be started at most once and
//! terminated at most once, and owns the broadcast bus it publishes to.
//! The connector (which opens the socket, awaits the identity call, runs
//! the loop and sends the cancellation signal) sits outside; this module
//! decides every transition and what each inbound wire event publishes.
use vstd::prelude::*;
use crate::bus::{Bus, BusReceiver};
use crate::chain::{
    WireMessage, chain_view, message_to_msgchain, spec_translate_message,
};
use crate::errors::BotError;
use crate::event::{Event, GroupMemberInfo};
use crate::ids::{
    i64_to_dec_string, spec_dec_chars_i64, spec_all_digits, spec_dec_value,
};

verus! {

/// The access credential, held write-only: it can be set and handed to
/// the connector, and is never printed or otherwise introspected.
pub struct AccessToken {
    secret: String,
}

impl View for AccessToken {
    type V = Seq<char>;

    closed spec fn view(&self) -> Seq<char> {
        self.secret@
    }
}

impl AccessToken {
    /// Wraps a credential.
    pub fn new(secret: String) -> (t: AccessToken)
        ensures
            t@ == secret@,
    {
        AccessToken { secret }
    }

    /// The one deliberate read, for building the connection config.
    pub fn expose_secret(&self) -> (r: &str)
        ensures
            r@ == self@,
    {
        self.secret.as_str()
    }
}

/// The immutable connection target of one session.
pub struct QQBotConfig {
    pub addr: String,
    pub access_token: AccessToken,
}

/// Whether `s` has a colon somewhere.
pub open spec fn spec_has_colon(s: Seq<char>) -> bool {
    exists|i: int| 0 <= i < s.len() && s[i] == ':'
}

/// The index of the first colon of `s` (its length when there is none).
pub open spec fn spec_colon_idx(s: Seq<char>) -> int
    decreases s.len(),
{
    if s.len() == 0 {
        0
    } else if s[0] == ':' {
        0
    } else {
        1 + spec_colon_idx(s.drop_first())
    }
}

/// What `u16` parsing makes of `s`: the port, or `None` when `s` is not
/// an optional `+` followed by at least one digit, or out of range.
pub open spec fn spec_parsed_u16(s: Seq<char>) -> Option<u16> {
    let d = if s.len() > 0 && s[0] == '+' {
        s.drop_first()
    } else {
        s
    };
    if d.len() == 0 || !spec_all_digits(d) {
        Option::None
    } else if spec_dec_value(d) <= 65535 {
        Option::Some(spec_dec_value(d) as u16)
    } else {
        Option::None
    }
}

/// Whether the host part passes hostport's host validation.
pub uninterp spec fn spec_valid_host(s: Seq<char>) -> bool;

/// What hostport makes of a connection target: the host before the first
/// colon and the parsed port after it, or `None` when the address has no
/// colon, the port does not parse, or the host is invalid.
pub open spec fn spec_addr_parsed(s: Seq<char>) -> Option<(Seq<char>, u16)> {
    let i = spec_colon_idx(s);
    if !spec_has_colon(s) {
        Option::None
    } else {
        match spec_parsed_u16(s.skip(i + 1)) {
            Option::None => Option::None,
            Option::Some(p) => if spec_valid_host(s.take(i)) {
                Option::Some((s.take(i), p))
            } else {
                Option::None
            },
        }
    }
}

/// Relies on hostport's `HostPort` parsing: the string splits at its
/// first colon, the suffix must parse as a 16-bit port, and the prefix
/// must pass hostport's host validation (named `spec_valid_host`).
#[verifier::external_body]
fn parse_hostport(addr: &str) -> (r: Option<(String, u16)>)
    ensures
        match r {
            Option::Some(hp) => spec_addr_parsed(addr@) == Option::Some((hp.0@, hp.1)),
            Option::None => spec_addr_parsed(addr@) is None,
        },
        r is Some ==> spec_valid_host(addr@.take(spec_colon_idx(addr@))),
{
    match <hostport::HostPort as core::str::FromStr>::from_str(addr) {
        Ok(hp) => {
            let host = hp.host().to_owned();
            Some((host, hp.port()))
        },
        Err(_) => None,
    }
}

/// What the connector needs to open the channel.
#[derive(Debug)]
pub struct StartAction {
    pub host: String,
    pub port: u16,
}

/// Evidence that the connection handle has been set: what `get_client`
/// hands out once the session is initialized.
#[derive(Debug)]
pub struct ClientToken;

/// One inbound occurrence on the protocol channel, as the event loop
/// classifies it.
pub enum WireEvent {
    /// A message event; only group-scoped ones are published.
    Message(WireMessage),
    /// A message-recall notice.
    GroupMessageRecall { self_id: i64, group_id: i64, message_id: i64 },
    /// Heartbeat meta event: observed, never published.
    Heartbeat,
    /// Lifecycle meta event: observed, never published.
    Lifecycle,
    /// A request event: not the session's concern.
    Request,
    /// Any other notice kind: observed, never published.
    OtherNotice,
    /// An API-response builder event: not the session's concern.
    ApiRespBuilder,
}

/// One session: the configured target, the two one-shot guards, the
/// single-assignment connection handle, and the broadcast bus.
pub struct QQBotEndpoint {
    config: QQBotConfig,
    started: bool,
    terminated: bool,
    client_ready: bool,
    bus: Bus,
}

impl QQBotEndpoint {
    /// Whether the one-shot start guard has been consumed.
    pub closed spec fn spec_started(&self) -> bool {
        self.started
    }

    /// Whether the one-shot terminate guard has been consumed.
    pub closed spec fn spec_terminated(&self) -> bool {
        self.terminated
    }

    /// Whether the connection handle has been published.
    pub closed spec fn spec_client_ready(&self) -> bool {
        self.client_ready
    }

    /// The bus this session publishes to.
    pub closed spec fn spec_bus(&self) -> Bus {
        self.bus
    }

    /// The events published so far.
    pub closed spec fn events(&self) -> Seq<Event> {
        self.bus@
    }

    /// Whether the bus has been closed by `shutdown_bus`.
    pub closed spec fn spec_bus_closed(&self) -> bool {
        self.bus.spec_closed()
    }

    /// The bus, for consumers to poll through their receivers.
    pub fn bus(&self) -> (b: &Bus)
        ensures
            *b == self.spec_bus(),
            b@ == self.events(),
            b.spec_closed() == self.spec_bus_closed(),
    {
        &self.bus
    }

    /// The configured connection target.
    pub closed spec fn spec_addr(&self) -> Seq<char> {
        self.config.addr@
    }

    /// The configured credential.
    pub closed spec fn spec_token(&self) -> Seq<char> {
        self.config.access_token@
    }

    /// A fresh session in "new" state: both guards unconsumed, no
    /// connection handle, nothing published.
    pub fn new(config: QQBotConfig) -> (s: QQBotEndpoint)
        ensures
            !s.spec_started(),
            !s.spec_terminated(),
            !s.spec_client_ready(),
            s.events() == Seq::<Event>::empty(),
            !s.spec_bus_closed(),
            s.spec_addr() == config.addr@,
            s.spec_token() == config.access_token@,
    {
        QQBotEndpoint {
            config,
            started: false,
            terminated: false,
            client_ready: false,
            bus: Bus::new(),
        }
    }

    /// The credential, for the connector alone.
    pub fn access_token(&self) -> (t: &AccessToken)
        ensures
            t@ == self.spec_token(),
    {
        &self.config.access_token
    }

    /// Consumes the start guard and resolves the connection target. A
    /// second call always fails with `AlreadyStarted`, whatever the first
    /// returned; a target that hostport rejects fails with `BadAddress`,
    /// with the guard consumed either way. Nothing is published and the
    /// connection handle stays unset until `complete_start`.
    pub fn start(&mut self) -> (r: Result<StartAction, BotError>)
        ensures
            old(self).spec_started() ==> r is Err && r->Err_0 == BotError::AlreadyStarted
                && *final(self) == *old(self),
            !old(self).spec_started() ==> {
                &&& final(self).spec_started()
                &&& final(self).spec_terminated() == old(self).spec_terminated()
                &&& final(self).spec_client_ready() == old(self).spec_client_ready()
                &&& final(self).events() == old(self).events()
                &&& final(self).spec_bus_closed() == old(self).spec_bus_closed()
                &&& final(self).spec_addr() == old(self).spec_addr()
                &&& final(self).spec_token() == old(self).spec_token()
                &&& match r {
                    Ok(a) => spec_addr_parsed(old(self).spec_addr()) == Option::Some(
                        (a.host@, a.port),
                    ),
                    Err(e) => spec_addr_parsed(old(self).spec_addr()) is None && e
                        == BotError::BadAddress,
                }
            },
    {
        if self.started {
            return Err(BotError::AlreadyStarted);
        }
        self.started = true;
        match parse_hostport(self.config.addr.as_str()) {
            Some((host, port)) => Ok(StartAction { host, port }),
            None => Err(BotError::BadAddress),
        }
    }

    /// Publishes the connection handle and the `Connected` event, once
    /// the identity call has succeeded. Owed success exactly when the
    /// session is started and the handle not yet set.
    pub fn complete_start(&mut self, name: String, qq_id: i64) -> (r: Result<(), BotError>)
        ensures
            !old(self).spec_started() ==> r is Err && r->Err_0 == BotError::NotInitialized
                && *final(self) == *old(self),
            old(self).spec_started() && old(self).spec_client_ready() ==> r is Err && r->Err_0
                == BotError::AlreadyStarted && *final(self) == *old(self),
            old(self).spec_started() && !old(self).spec_client_ready() ==> {
                &&& r is Ok
                &&& final(self).spec_client_ready()
                &&& final(self).spec_started()
                &&& final(self).spec_terminated() == old(self).spec_terminated()
                &&& final(self).spec_addr() == old(self).spec_addr()
                &&& final(self).spec_token() == old(self).spec_token()
                &&& final(self).spec_bus_closed() == old(self).spec_bus_closed()
                &&& final(self).events().len() == old(self).events().len() + 1
                &&& final(self).events().drop_last() == old(self).events()
                &&& final(self).events().last() matches Event::Connected { name: n, qq } && n
                    == name && qq@ == spec_dec_chars_i64(qq_id as int)
            },
    {
        if !self.started {
            return Err(BotError::NotInitialized);
        }
        if self.client_ready {
            return Err(BotError::AlreadyStarted);
        }
        self.client_ready = true;
        let qq = i64_to_dec_string(qq_id);
        let ghost pre = self.bus@;
        self.bus.publish(Event::Connected { name, qq });
        proof {
            assert(self.bus@.drop_last() =~= pre);
        }
        Ok(())
    }

    /// Consumes the terminate guard: the cancellation signal may be sent
    /// exactly once, before or after `start`. A second call always fails
    /// with `AlreadyTerminated`. Nothing is published.
    pub fn terminate(&mut self) -> (r: Result<(), BotError>)
        ensures
            old(self).spec_terminated() ==> r is Err && r->Err_0 == BotError::AlreadyTerminated
                && *final(self) == *old(self),
            !old(self).spec_terminated() ==> {
                &&& r is Ok
                &&& final(self).spec_terminated()
                &&& final(self).spec_started() == old(self).spec_started()
                &&& final(self).spec_client_ready() == old(self).spec_client_ready()
                &&& final(self).events() == old(self).events()
                &&& final(self).spec_bus_closed() == old(self).spec_bus_closed()
                &&& final(self).spec_addr() == old(self).spec_addr()
                &&& final(self).spec_token() == old(self).spec_token()
            },
    {
        if self.terminated {
            return Err(BotError::AlreadyTerminated);
        }
        self.terminated = true;
        Ok(())
    }

    /// A handle for outbound API calls; owed exactly when `start` has
    /// published the connection handle, else `NotInitialized`.
    pub fn get_client(&self) -> (r: Result<ClientToken, BotError>)
        ensures
            r is Ok <==> self.spec_client_ready(),
            r is Err ==> r->Err_0 == BotError::NotInitialized,
    {
        if self.client_ready {
            Ok(ClientToken)
        } else {
            Err(BotError::NotInitialized)
        }
    }

    /// A new bus consumer, seeing only events published after this call.
    /// The registry around it forwards each polled event to the host
    /// callback in arrival order, then a final `Closed`.
    pub fn register_callback(&self) -> (rx: BusReceiver)
        ensures
            rx.start == self.events().len(),
            rx.cursor == self.events().len(),
            rx.seen@ == Seq::<Event>::empty(),
            rx.wf_for(&self.spec_bus()),
    {
        self.bus.new_receiver()
    }

    /// Marks the stream over, when the event loop exits: consumers that
    /// catch up then observe the end and hand their callback `Closed`.
    pub fn shutdown_bus(&mut self)
        ensures
            final(self).events() == old(self).events(),
            final(self).spec_bus_closed(),
            final(self).spec_started() == old(self).spec_started(),
            final(self).spec_terminated() == old(self).spec_terminated(),
            final(self).spec_client_ready() == old(self).spec_client_ready(),
            final(self).spec_addr() == old(self).spec_addr(),
            final(self).spec_token() == old(self).spec_token(),
    {
        self.bus.close();
    }
}

fn clone_opt_string(o: &Option<String>) -> (r: Option<String>)
    ensures
        r == *o,
{
    match o {
        Some(t) => Some(t.clone()),
        None => None,
    }
}

impl QQBotEndpoint {
    /// Classifies one inbound wire event and publishes what it owes, as
    /// the event loop does per occurrence: a translatable group message
    /// is published with its sender snapshot and translated chain; one
    /// whose translation fails is dropped silently; a recall notice is
    /// published directly; private messages, meta, request and
    /// response-builder events are observed and never published. A group
    /// message whose sender carries no user id is a fatal loop error.
    pub fn handle_onebot_event(&mut self, ev: WireEvent) -> (r: Result<(), BotError>)
        ensures
            final(self).spec_started() == old(self).spec_started(),
            final(self).spec_terminated() == old(self).spec_terminated(),
            final(self).spec_client_ready() == old(self).spec_client_ready(),
            final(self).spec_addr() == old(self).spec_addr(),
            final(self).spec_token() == old(self).spec_token(),
            final(self).spec_bus_closed() == old(self).spec_bus_closed(),
            match ev {
                WireEvent::Message(m) => if m is Group {
                    if spec_translate_message(m@) is Err {
                        r is Ok && final(self).events() == old(self).events()
                    } else if m->Group_sender.user_id is None {
                        r is Err && r->Err_0 == BotError::MissingSenderId && final(self).events()
                            == old(self).events()
                    } else {
                        &&& r is Ok
                        &&& final(self).events().len() == old(self).events().len() + 1
                        &&& final(self).events().drop_last() == old(self).events()
                        &&& final(self).events().last() matches Event::GroupMessage {
                            self_id,
                            group_id,
                            sender,
                            message,
                        } && ({
                            &&& self_id@ == spec_dec_chars_i64(m->Group_self_id as int)
                            &&& group_id@ == spec_dec_chars_i64(m->Group_group_id as int)
                            &&& sender.user_id@ == spec_dec_chars_i64(
                                m->Group_sender.user_id->0 as int,
                            )
                            &&& sender.nick == m->Group_sender.card
                            &&& sender.name == m->Group_sender.nickname
                            &&& chain_view(message) == spec_translate_message(m@)->Ok_0.1
                        })
                    }
                } else {
                    r is Ok && final(self).events() == old(self).events()
                },
                WireEvent::GroupMessageRecall { self_id, group_id, message_id } => {
                    &&& r is Ok
                    &&& final(self).events().len() == old(self).events().len() + 1
                    &&& final(self).events().drop_last() == old(self).events()
                    &&& final(self).events().last() matches Event::GroupMessageDeleted {
                        group_id: g,
                        self_id: sid,
                        message_id: mid,
                    } && g@ == spec_dec_chars_i64(group_id as int) && sid@ == spec_dec_chars_i64(
                        self_id as int,
                    ) && mid@ == spec_dec_chars_i64(message_id as int)
                },
                _ => r is Ok && final(self).events() == old(self).events(),
            },
    {
        match ev {
            WireEvent::Message(m) => {
                match &m {
                    WireMessage::Group { self_id, group_id, sender, .. } => {
                        match message_to_msgchain(&m) {
                            Err(_) => Ok(()),  // a malformed message must not stop the loop
                            Ok((_display, chain)) => {
                                match sender.user_id {
                                    None => Err(BotError::MissingSenderId),
                                    Some(uid) => {
                                        let e = Event::GroupMessage {
                                            self_id: i64_to_dec_string(*self_id),
                                            group_id: i64_to_dec_string(*group_id),
                                            sender: GroupMemberInfo {
                                                user_id: i64_to_dec_string(uid),
                                                nick: clone_opt_string(&sender.card),
                                                name: clone_opt_string(&sender.nickname),
                                            },
                                            message: chain,
                                        };
                                        let ghost pre = self.bus@;
                                        self.bus.publish(e);
                                        proof {
                                            assert(self.bus@.drop_last() =~= pre);
                                        }
                                        Ok(())
                                    },
                                }
                            },
                        }
                    },
                    WireMessage::Private { .. } => Ok(()),
                }
            },
            WireEvent::GroupMessageRecall { self_id, group_id, message_id } => {
                let e = Event::GroupMessageDeleted {
                    group_id: i64_to_dec_string(group_id),
                    self_id: i64_to_dec_string(self_id),
                    message_id: i64_to_dec_string(message_id),
                };
                let ghost pre = self.bus@;
                self.bus.publish(e);
                proof {
                    assert(self.bus@.drop_last() =~= pre);
                }
                Ok(())
            },
            WireEvent::Heartbeat => Ok(()),
            WireEvent::Lifecycle => Ok(()),
            WireEvent::Request => Ok(()),
            WireEvent::OtherNotice => Ok(()),
            WireEvent::ApiRespBuilder => Ok(()),
        }
    }
}

} // verus!
