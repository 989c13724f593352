//! Keeping a tunnel going between the kernel's network device and the server.
//!
//! `Tunnel` waits for traffic and takes a session from its key material through its set-up to the
//! forwarding of packets. The device, the socket, the transport and HTTP/3 are outside: it is told
//! what happened there and says what to do next. The packets that wait are handed to a session
//! when it is up, and in no other way.
use crate::burst::BurstError;
use crate::clock::{Duration, EARLIEST_UNIX_SECOND, LATEST_UNIX_SECOND, NANOS_PER_SEC};
use crate::config::Config;
use crate::forward::{ForwardAction, ForwardEvent, TunnelSession};
use crate::net::SocketAddress;
use crate::setup::{Dialect, SessionSetup, SetupAction, SetupError, SetupEvent};
use crate::tls::{prepare_tls_material, prepared_at, TlsError, TlsMaterial};
use std::collections::VecDeque;
use vstd::prelude::*;
use vstd::slice::slice_to_vec;
use vstd::string::StringExecFns;

verus! {

/// How long to rest after a session failed, in seconds.
pub const RECONNECT_DELAY_SECS: u64 = 1;

/// How many bytes a packet buffer has beyond the largest packet.
pub const PACKET_HEADROOM: usize = 128;

/// What a tunnel needs to know beyond the configuration of the account.
#[derive(Debug)]
pub struct TunnelConfig {
    pub endpoint: SocketAddress,
    pub sni: String,
    pub keepalive_period: Duration,
    pub mtu: u32,
}

/// The size of a packet buffer.
pub fn packet_capacity(mtu: u32) -> (r: usize)
    requires
        mtu + PACKET_HEADROOM <= usize::MAX,
    ensures
        r == mtu + PACKET_HEADROOM,
        r == mtu + 128,
{
    mtu as usize + PACKET_HEADROOM
}

/// Why a tunnel, or a session of it, ended.
#[derive(Debug)]
pub enum TunnelError {
    /// The keepalive period is zero.
    ZeroKeepalive,
    /// The device could not be read while there was no session.
    IdleRead(String),
    /// The device is closed.
    DeviceClosed,
    /// The device could not be read.
    Read(String),
    /// The device could not be written.
    Write(String),
    /// The socket could not receive.
    Udp(String),
    /// The transport could not be made to send a keepalive.
    Keepalive(String),
    /// The transport's packets could not be sent.
    Burst(BurstError),
}

impl TunnelError {
    /// The message.
    pub open spec fn text(self) -> Seq<char> {
        match self {
            TunnelError::ZeroKeepalive => "keepalive period must be greater than zero"@,
            TunnelError::IdleRead(text) => "failed to read TUN device while idle: "@ + text@,
            TunnelError::DeviceClosed => "TUN device closed"@,
            TunnelError::Read(text) => "failed to read packet batch from TUN: "@ + text@,
            TunnelError::Write(text) => "failed to write packet batch to TUN: "@ + text@,
            TunnelError::Udp(text) => text@,
            TunnelError::Keepalive(text) => "failed to schedule QUIC keepalive: "@ + text@,
            TunnelError::Burst(error) => error.text(),
        }
    }

    /// The message.
    pub fn message(&self) -> (r: String)
        ensures
            r@ == self.text(),
    {
        match self {
            TunnelError::ZeroKeepalive => "keepalive period must be greater than zero".to_owned(),
            TunnelError::IdleRead(text) => led(
                "failed to read TUN device while idle: ",
                text.as_str(),
            ),
            TunnelError::DeviceClosed => "TUN device closed".to_owned(),
            TunnelError::Read(text) => led(
                "failed to read packet batch from TUN: ",
                text.as_str(),
            ),
            TunnelError::Write(text) => led(
                "failed to write packet batch to TUN: ",
                text.as_str(),
            ),
            TunnelError::Udp(text) => text.clone(),
            TunnelError::Keepalive(text) => led(
                "failed to schedule QUIC keepalive: ",
                text.as_str(),
            ),
            TunnelError::Burst(error) => error.message(),
        }
    }
}

/// One text after another.
fn led(lead: &str, text: &str) -> (r: String)
    ensures
        r@ == lead@ + text@,
{
    let mut m = lead.to_owned();
    m.append(text);
    m
}

/// What happens in the life of a tunnel, as far as the user is told of it.
#[derive(Debug)]
pub enum Notice {
    /// There is no traffic.
    Idle,
    /// A session is brought up with the server at this address.
    Connecting(String),
    /// A session is up.
    Connected,
    /// A session ended.
    Disconnected,
    /// A session failed, for this reason.
    Failed(String),
}

impl Notice {
    /// The line that the user is shown.
    pub open spec fn line(self) -> Seq<char> {
        match self {
            Notice::Idle => "\r\x1b[2K[idle] Waiting for traffic..."@,
            Notice::Connecting(endpoint) => "\r\x1b[2K[connecting] "@ + endpoint@ + " ..."@,
            Notice::Connected => "\r\x1b[2K[connected] MASQUE tunnel established"@,
            Notice::Disconnected => "\r\x1b[2K[disconnected] Session ended"@,
            Notice::Failed(reason) => "\r\x1b[2K[error] "@ + reason@,
        }
    }

    /// The line that the user is shown.
    pub fn text(&self) -> (r: String)
        ensures
            r@ == self.line(),
    {
        match self {
            Notice::Idle => "\r\x1b[2K[idle] Waiting for traffic...".to_owned(),
            Notice::Connecting(endpoint) => {
                let mut m = "\r\x1b[2K[connecting] ".to_owned();
                m.append(endpoint.as_str());
                m.append(" ...");
                m
            },
            Notice::Connected => "\r\x1b[2K[connected] MASQUE tunnel established".to_owned(),
            Notice::Disconnected => "\r\x1b[2K[disconnected] Session ended".to_owned(),
            Notice::Failed(reason) => led("\r\x1b[2K[error] ", reason.as_str()),
        }
    }
}

/// Why a session of a tunnel ended before its time.
#[derive(Debug)]
pub enum SessionFailure {
    /// There is no usable key material.
    Tls(TlsError),
    /// The socket or the transport could not be opened; with the outside words, without and with
    /// their causes.
    Link { message: String, full_message: String },
    /// The session could not be brought up.
    Setup(SetupError),
    /// The session failed while it was up.
    Forward(TunnelError),
}

impl SessionFailure {
    /// The message.
    pub open spec fn text(self) -> Seq<char> {
        match self {
            SessionFailure::Tls(error) => error.text(),
            SessionFailure::Link { message, .. } => message@,
            SessionFailure::Setup(error) => error.lead(Dialect::Tunnel) + error.cause(),
            SessionFailure::Forward(error) => error.text(),
        }
    }

    /// The message.
    pub fn message(&self) -> (r: String)
        ensures
            r@ == self.text(),
    {
        match self {
            SessionFailure::Tls(error) => error.message(),
            SessionFailure::Link { message, .. } => message.clone(),
            SessionFailure::Setup(error) => error.message(Dialect::Tunnel),
            SessionFailure::Forward(error) => error.message(),
        }
    }

    /// The message with its causes.
    pub open spec fn full_text(self) -> Seq<char> {
        match self {
            SessionFailure::Tls(error) => error.full_text(),
            SessionFailure::Link { full_message, .. } => full_message@,
            _ => self.text(),
        }
    }

    /// The message with its causes.
    pub fn full_message(&self) -> (r: String)
        ensures
            r@ == self.full_text(),
    {
        match self {
            SessionFailure::Tls(error) => error.full_message(),
            SessionFailure::Link { full_message, .. } => full_message.clone(),
            _ => self.message(),
        }
    }
}

/// Where a tunnel stands.
pub enum TunnelPhase {
    /// The device is read.
    Idle,
    /// The key material for a session is made.
    Preparing,
    /// The socket and the transport are opened, for a server with this key.
    Connecting { pinned: Vec<u8> },
    /// The session is brought up.
    SettingUp(SessionSetup),
    /// The session is up.
    Up(TunnelSession),
    /// The user is told that the session ended.
    Parting,
    /// The session failed a moment ago.
    Resting,
    /// The tunnel is over.
    Over,
}

/// What happened.
pub enum TunnelEvent {
    /// The device gave these packets; none means that it is closed.
    Read(VecDeque<Vec<u8>>),
    /// The device could not be read.
    ReadFailed(String),
    /// The key material was made, or not.
    Material(Result<TlsMaterial, TlsError>),
    /// The socket and the transport are open.
    LinkOpened,
    /// They could not be opened.
    LinkFailed { message: String, full_message: String },
    /// Something happened while the session is brought up.
    Setup(SetupEvent),
    /// Something happened while the session is up.
    Forward(ForwardEvent),
    /// The user was told.
    Told,
    /// The rest is over.
    Rested,
}

/// What to do next.
pub enum TunnelAction {
    /// Read packets from the device.
    Read,
    /// Make the key material for a session, with `Tunnel::run_tunnel_session`.
    Prepare,
    /// Open the socket and the transport with this material.
    OpenLink(TlsMaterial),
    /// Do this to bring the session up.
    Setup(SetupAction),
    /// The session is up, on this flow. Do this first, which begins with the packets that waited.
    Start { flow_id: u64, first: ForwardAction },
    /// Do this while the session is up.
    Forward(ForwardAction),
    /// Tell the user that the session ended.
    Part,
    /// Tell the user why the session failed, then rest for so long.
    Rest { delay: Duration, failure: SessionFailure },
    /// Give up.
    Fail(TunnelError),
}

/// A tunnel.
pub struct Tunnel {
    pub keepalive: Duration,
    pub phase: TunnelPhase,
    /// The packets that were read while no session was up, the first one first.
    pub pending_packets: VecDeque<Vec<u8>>,
}

impl Tunnel {
    /// A session that is brought up is that of a tunnel, and has something to carry; it and one
    /// that is up are in order.
    pub open spec fn wf(self) -> bool {
        match self.phase {
            TunnelPhase::Preparing => self.pending_packets@.len() > 0,
            TunnelPhase::Connecting { .. } => self.pending_packets@.len() > 0,
            TunnelPhase::SettingUp(setup) => {
                &&& self.pending_packets@.len() > 0
                &&& setup.wf()
                &&& setup.dialect == Dialect::Tunnel
            },
            TunnelPhase::Up(session) => session.wf(),
            _ => true,
        }
    }

    /// The event answers what was last asked for.
    pub open spec fn expects(self, event: TunnelEvent) -> bool {
        match (self.phase, event) {
            (TunnelPhase::Idle, TunnelEvent::Read(_)) => true,
            (TunnelPhase::Idle, TunnelEvent::ReadFailed(_)) => true,
            (TunnelPhase::Preparing, TunnelEvent::Material(_)) => true,
            (TunnelPhase::Connecting { .. }, TunnelEvent::LinkOpened) => true,
            (TunnelPhase::Connecting { .. }, TunnelEvent::LinkFailed { .. }) => true,
            (TunnelPhase::SettingUp(setup), TunnelEvent::Setup(inner)) => setup.expects(inner),
            (TunnelPhase::Up(session), TunnelEvent::Forward(inner)) => session.expects(inner)
                && session.stats.room(session.at_stake(inner)),
            (TunnelPhase::Parting, TunnelEvent::Told) => true,
            (TunnelPhase::Resting, TunnelEvent::Rested) => true,
            _ => false,
        }
    }

    /// Only the phase changes, to `phase`.
    pub open spec fn moved(self, phase: TunnelPhase, after: Tunnel) -> bool {
        after == (Tunnel { phase, ..self })
    }

    /// The tunnel goes on: with a session if packets wait, else with the device.
    pub open spec fn resumes(self, after: Tunnel, action: TunnelAction) -> bool {
        if self.pending_packets@.len() == 0 {
            self.moved(TunnelPhase::Idle, after) && action is Read
        } else {
            self.moved(TunnelPhase::Preparing, after) && action is Prepare
        }
    }

    /// The session failed: the tunnel rests, and the packets that wait go on waiting.
    pub open spec fn rests(
        self,
        failure: SessionFailure,
        after: Tunnel,
        action: TunnelAction,
    ) -> bool {
        &&& self.moved(TunnelPhase::Resting, after)
        &&& action matches TunnelAction::Rest { delay, failure: cause }
        &&& cause == failure
        &&& delay@ == RECONNECT_DELAY_SECS * NANOS_PER_SEC
    }

    /// What comes of a step of the set-up that leaves `setup` and says to do `inner`. A session
    /// that is up takes the packets that wait, all of them.
    pub open spec fn set_up(
        self,
        setup: SessionSetup,
        inner: SetupAction,
        after: Tunnel,
        action: TunnelAction,
    ) -> bool {
        match inner {
            SetupAction::Finish { flow_id } => {
                &&& after.keepalive == self.keepalive
                &&& after.pending_packets@ == Seq::<Vec<u8>>::empty()
                &&& after.phase matches TunnelPhase::Up(session)
                &&& action matches TunnelAction::Start { flow_id: flow, first }
                &&& flow == flow_id
                &&& session.begun(setup.flow(), self.keepalive, self.pending_packets@, first)
            },
            SetupAction::Fail(error) => self.rests(SessionFailure::Setup(error), after, action),
            _ => self.moved(TunnelPhase::SettingUp(setup), after) && action == TunnelAction::Setup(
                inner,
            ),
        }
    }

    /// What comes of a step of the session that leaves `session` and says to do `inner`.
    pub open spec fn forwarded(
        self,
        session: TunnelSession,
        inner: ForwardAction,
        after: Tunnel,
        action: TunnelAction,
    ) -> bool {
        match inner {
            ForwardAction::Finish => self.moved(TunnelPhase::Parting, after) && action is Part,
            ForwardAction::Fail(error) => self.rests(SessionFailure::Forward(error), after, action),
            _ => self.moved(TunnelPhase::Up(session), after) && action == TunnelAction::Forward(
                inner,
            ),
        }
    }

    /// How the tunnel goes on after an event that it expects.
    pub open spec fn follows(self, event: TunnelEvent, after: Tunnel, action: TunnelAction) -> bool {
        match (self.phase, event) {
            (TunnelPhase::Idle, TunnelEvent::Read(packets)) => if packets@.len() == 0 {
                &&& self.moved(TunnelPhase::Over, after)
                &&& action == TunnelAction::Fail(TunnelError::DeviceClosed)
            } else {
                &&& after == (Tunnel {
                    phase: TunnelPhase::Preparing,
                    pending_packets: after.pending_packets,
                    ..self
                })
                &&& after.pending_packets@ == self.pending_packets@ + packets@
                &&& action is Prepare
            },
            (TunnelPhase::Idle, TunnelEvent::ReadFailed(text)) => {
                &&& self.moved(TunnelPhase::Over, after)
                &&& action == TunnelAction::Fail(TunnelError::IdleRead(text))
            },
            (TunnelPhase::Preparing, TunnelEvent::Material(Ok(material))) => {
                &&& after == (Tunnel { phase: after.phase, ..self })
                &&& after.phase matches TunnelPhase::Connecting { pinned }
                &&& pinned@ == material.endpoint_pub_key_spki_der@
                &&& action == TunnelAction::OpenLink(material)
            },
            (TunnelPhase::Preparing, TunnelEvent::Material(Err(error))) => self.rests(
                SessionFailure::Tls(error),
                after,
                action,
            ),
            (TunnelPhase::Connecting { pinned }, TunnelEvent::LinkOpened) => {
                &&& after == (Tunnel { phase: after.phase, ..self })
                &&& after.phase matches TunnelPhase::SettingUp(setup)
                &&& setup.fresh() && setup.wf()
                &&& setup.dialect == Dialect::Tunnel
                &&& setup.pinned == pinned
                &&& action matches TunnelAction::Setup(inner)
                &&& inner is MakePacket
            },
            (
                TunnelPhase::Connecting { .. },
                TunnelEvent::LinkFailed { message, full_message },
            ) => self.rests(SessionFailure::Link { message, full_message }, after, action),
            (TunnelPhase::SettingUp(setup), TunnelEvent::Setup(inner)) =>
                exists|next: SessionSetup, to_do: SetupAction| #[trigger]
                    setup.follows(inner, next, to_do) && self.set_up(next, to_do, after, action),
            (TunnelPhase::Up(session), TunnelEvent::Forward(inner)) =>
                exists|next: TunnelSession, to_do: ForwardAction| #[trigger]
                    session.follows(inner, next, to_do) && self.forwarded(
                        next,
                        to_do,
                        after,
                        action,
                    ),
            (TunnelPhase::Parting, TunnelEvent::Told) => self.resumes(after, action),
            (TunnelPhase::Resting, TunnelEvent::Rested) => self.resumes(after, action),
            _ => false,
        }
    }

    /// This is what comes of a configuration: a tunnel that reads the device, if it is usable.
    pub open spec fn started(config: TunnelConfig, r: Result<Tunnel, TunnelError>) -> bool {
        match r {
            Ok(tunnel) => config.keepalive_period@ > 0 && tunnel.phase is Idle && tunnel.keepalive
                == config.keepalive_period && tunnel.pending_packets@ == Seq::<Vec<u8>>::empty()
                && tunnel.wf(),
            Err(error) => config.keepalive_period@ == 0 && error is ZeroKeepalive,
        }
    }

    /// A tunnel that reads the device, if the configuration is usable.
    pub fn new(config: &TunnelConfig) -> (r: Result<Tunnel, TunnelError>)
        ensures
            Tunnel::started(*config, r),
    {
        if config.keepalive_period.is_zero() {
            return Err(TunnelError::ZeroKeepalive);
        }
        Ok(
            Tunnel {
                keepalive: config.keepalive_period,
                phase: TunnelPhase::Idle,
                pending_packets: VecDeque::new(),
            },
        )
    }

    fn resume(&mut self) -> (r: TunnelAction)
        ensures
            old(self).resumes(*final(self), r),
            final(self).wf(),
    {
        if self.pending_packets.len() == 0 {
            self.phase = TunnelPhase::Idle;
            TunnelAction::Read
        } else {
            self.phase = TunnelPhase::Preparing;
            TunnelAction::Prepare
        }
    }

    fn rest(&mut self, failure: SessionFailure) -> (r: TunnelAction)
        ensures
            old(self).rests(failure, *final(self), r),
            final(self).wf(),
    {
        self.phase = TunnelPhase::Resting;
        TunnelAction::Rest { delay: Duration::from_secs(RECONNECT_DELAY_SECS), failure }
    }

    fn go(&mut self, phase: TunnelPhase, action: TunnelAction) -> (r: TunnelAction)
        ensures
            old(self).moved(phase, *final(self)),
            r == action,
    {
        self.phase = phase;
        action
    }

    /// Takes up what a step of the set-up said to do.
    fn after_setup(&mut self, setup: SessionSetup, inner: SetupAction) -> (r: TunnelAction)
        requires
            setup.wf(),
            setup.dialect == Dialect::Tunnel,
            inner matches SetupAction::Finish { flow_id } ==> setup.phase is Ready && flow_id
                == setup.flow(),
            old(self).pending_packets@.len() > 0,
        ensures
            old(self).set_up(setup, inner, *final(self), r),
            final(self).wf(),
    {
        match inner {
            SetupAction::Finish { flow_id } => {
                let mut packets: VecDeque<Vec<u8>> = VecDeque::new();
                std::mem::swap(&mut packets, &mut self.pending_packets);
                let (session, first) = TunnelSession::new(&setup, self.keepalive, packets);
                self.phase = TunnelPhase::Up(session);
                TunnelAction::Start { flow_id, first }
            },
            SetupAction::Fail(error) => self.rest(SessionFailure::Setup(error)),
            _ => self.go(TunnelPhase::SettingUp(setup), TunnelAction::Setup(inner)),
        }
    }

    /// Takes up what a step of the session said to do.
    fn after_forward(&mut self, session: TunnelSession, inner: ForwardAction) -> (r: TunnelAction)
        requires
            session.wf(),
        ensures
            old(self).forwarded(session, inner, *final(self), r),
            final(self).wf(),
    {
        match inner {
            ForwardAction::Finish => self.go(TunnelPhase::Parting, TunnelAction::Part),
            ForwardAction::Fail(error) => self.rest(SessionFailure::Forward(error)),
            _ => self.go(TunnelPhase::Up(session), TunnelAction::Forward(inner)),
        }
    }

    /// Keeps the tunnel going: takes in what happened and says what to do next.
    pub fn maintain_tunnel(&mut self, event: TunnelEvent) -> (r: TunnelAction)
        requires
            old(self).wf(),
            old(self).expects(event),
        ensures
            final(self).wf(),
            old(self).follows(event, *final(self), r),
    {
        let mut phase = TunnelPhase::Over;
        std::mem::swap(&mut phase, &mut self.phase);
        match (phase, event) {
            (TunnelPhase::Idle, TunnelEvent::Read(packets)) => {
                if packets.len() == 0 {
                    return self.go(
                        TunnelPhase::Over,
                        TunnelAction::Fail(TunnelError::DeviceClosed),
                    );
                }
                let mut arrived = packets;
                self.pending_packets.append(&mut arrived);
                self.go(TunnelPhase::Preparing, TunnelAction::Prepare)
            },
            (TunnelPhase::Idle, TunnelEvent::ReadFailed(text)) => self.go(
                TunnelPhase::Over,
                TunnelAction::Fail(TunnelError::IdleRead(text)),
            ),
            (TunnelPhase::Preparing, TunnelEvent::Material(Ok(material))) => {
                let pinned = slice_to_vec(material.endpoint_pub_key_spki_der.as_slice());
                self.go(TunnelPhase::Connecting { pinned }, TunnelAction::OpenLink(material))
            },
            (TunnelPhase::Preparing, TunnelEvent::Material(Err(error))) => self.rest(
                SessionFailure::Tls(error),
            ),
            (TunnelPhase::Connecting { pinned }, TunnelEvent::LinkOpened) => {
                let setup = SessionSetup::new(Dialect::Tunnel, pinned);
                self.go(
                    TunnelPhase::SettingUp(setup),
                    TunnelAction::Setup(SetupAction::MakePacket),
                )
            },
            (
                TunnelPhase::Connecting { .. },
                TunnelEvent::LinkFailed { message, full_message },
            ) => self.rest(SessionFailure::Link { message, full_message }),
            (TunnelPhase::SettingUp(setup), TunnelEvent::Setup(inner)) => {
                let mut setup = setup;
                let to_do = setup.step(inner);
                self.after_setup(setup, to_do)
            },
            (TunnelPhase::Up(session), TunnelEvent::Forward(inner)) => {
                let mut session = session;
                let to_do = session.step(inner);
                self.after_forward(session, to_do)
            },
            _ => self.resume(),
        }
    }

    /// Begins a session: makes its key material from the configuration, and takes in what came of
    /// that.
    pub fn run_tunnel_session(&mut self, config: &Config) -> (r: TunnelAction)
        requires
            old(self).wf(),
            old(self).phase is Preparing,
        ensures
            final(self).wf(),
            exists|now: i64, outcome: Result<TlsMaterial, TlsError>|
                EARLIEST_UNIX_SECOND <= now <= LATEST_UNIX_SECOND && #[trigger] prepared_at(
                    *config,
                    now,
                    outcome,
                ) && old(self).follows(TunnelEvent::Material(outcome), *final(self), r),
    {
        let outcome = prepare_tls_material(config);
        self.maintain_tunnel(TunnelEvent::Material(outcome))
    }

    /// Whether there is room in the counters for what the event may add to them.
    pub fn has_room_for(&self, event: &ForwardEvent) -> (r: bool)
        ensures
            r == (self.phase matches TunnelPhase::Up(session) ==> session.stats.room(
                session.at_stake(*event),
            )),
    {
        match &self.phase {
            TunnelPhase::Up(session) => session.has_room_for(event),
            _ => true,
        }
    }
}

} // verus!
