//! Bringing a session up: the QUIC handshake, the check of the server's key, the CONNECT request
//! and the wait for its answer.
//!
//! The transport and the socket are outside. `SessionSetup` is told what happened there and says
//! what to do next, until the session is ready or has failed.
use crate::clock::Duration;
use crate::keys::certificate_spki;
use crate::net::SocketAddress;
use crate::random::random_bytes;
use crate::register::header_views;
use crate::text::utf8_text;
use crate::tls::{same_bytes, verify_endpoint_key};
use crate::varint::VARINT_LIMIT;
use vstd::prelude::*;
use vstd::string::{StrSliceExecFns, StringExecFns};
use vstd::utf8::{decode_utf8, valid_utf8};

verus! {

/// How often the answer to the CONNECT request is waited for.
pub const RESPONSE_ROUNDS: u32 = 100;

/// The bytes in a connection identifier.
pub const CONNECTION_ID_LEN: usize = 20;

/// Which kind of session is brought up. They differ in how they word errors, and in that a tunnel
/// opens with a single packet.
#[derive(Debug, Clone, Copy, PartialEq, Eq, Structural)]
pub enum Dialect {
    PacketStream,
    Tunnel,
}

/// What the session is busy with.
#[derive(Debug, Clone, Copy, PartialEq, Eq, Structural)]
pub enum Stage {
    /// Sending the first packets.
    Opening,
    /// The handshake.
    Handshake,
    /// Sending the CONNECT request.
    Request,
    /// Waiting for the answer to it.
    Response,
}

/// Why a session could not be brought up.
#[derive(Debug)]
pub enum SetupError {
    /// The system had no random bytes.
    Rng,
    /// The transport could not make a packet; with its words.
    Quic(Stage, String),
    /// The socket could not send; with the system's words.
    Socket(Stage, String),
    /// The socket could not receive; with the system's words.
    Receive(Stage, String),
    /// The transport closed the connection.
    Closed(Stage),
    /// The server showed no certificate.
    NoCertificate,
    /// The server's key is not the pinned one.
    KeyMismatch,
    /// HTTP/3 could not be configured.
    H3Config(String),
    /// HTTP/3 could not be started.
    H3Connection(String),
    /// The CONNECT request could not be sent.
    Request(String),
    /// HTTP/3 failed.
    H3Poll(String),
    /// The server refused with this status.
    Rejected(String),
    /// The server did not answer.
    TimedOut,
}

impl SetupError {
    /// What comes before the cause in the message.
    pub open spec fn lead(self, dialect: Dialect) -> Seq<char> {
        let stream = dialect == Dialect::PacketStream;
        match self {
            SetupError::Rng => "RNG failure"@,
            SetupError::Quic(stage, _) => match stage {
                Stage::Opening => if stream { ""@ } else { "initial send: "@ },
                Stage::Handshake => if stream {
                    "send during handshake failed: "@
                } else {
                    "send during handshake: "@
                },
                Stage::Request => if stream { ""@ } else { "send after CONNECT: "@ },
                Stage::Response => if stream {
                    "send during CONNECT wait failed: "@
                } else {
                    "send during CONNECT wait: "@
                },
            },
            SetupError::Socket(stage, _) => match stage {
                Stage::Handshake => if stream { "send during handshake failed: "@ } else { ""@ },
                Stage::Response => if stream { "send during CONNECT wait failed: "@ } else { ""@ },
                _ => ""@,
            },
            SetupError::Receive(stage, _) => match stage {
                Stage::Handshake => if stream { "UDP recv during handshake failed: "@ } else { ""@ },
                Stage::Response => if stream {
                    "UDP recv before CONNECT response failed: "@
                } else {
                    ""@
                },
                _ => ""@,
            },
            SetupError::Closed(stage) => match stage {
                Stage::Response => "connection closed before CONNECT response"@,
                _ => "connection closed during handshake"@,
            },
            SetupError::NoCertificate => "peer did not provide a certificate"@,
            SetupError::KeyMismatch =>
                "peer certificate public key does not match pinned endpoint key"@,
            SetupError::H3Config(_) => if stream { ""@ } else { "h3 config: "@ },
            SetupError::H3Connection(_) => if stream { ""@ } else { "h3 connection: "@ },
            SetupError::Request(_) => if stream { ""@ } else { "send CONNECT request: "@ },
            SetupError::H3Poll(_) => "h3 poll error: "@,
            SetupError::Rejected(_) => "CONNECT rejected with status "@,
            SetupError::TimedOut => "timed out waiting for CONNECT response"@,
        }
    }

    /// The cause as text, empty where there is none.
    pub open spec fn cause(self) -> Seq<char> {
        match self {
            SetupError::Quic(_, text) => text@,
            SetupError::Socket(_, text) => text@,
            SetupError::Receive(_, text) => text@,
            SetupError::H3Config(text) => text@,
            SetupError::H3Connection(text) => text@,
            SetupError::Request(text) => text@,
            SetupError::H3Poll(text) => text@,
            SetupError::Rejected(text) => text@,
            _ => ""@,
        }
    }

    /// The message for the user.
    pub fn message(&self, dialect: Dialect) -> (r: String)
        ensures
            r@ == self.lead(dialect) + self.cause(),
    {
        let stream = match dialect {
            Dialect::PacketStream => true,
            Dialect::Tunnel => false,
        };
        let lead = match self {
            SetupError::Rng => "RNG failure",
            SetupError::Quic(stage, _) => match stage {
                Stage::Opening => if stream {
                    ""
                } else {
                    "initial send: "
                },
                Stage::Handshake => if stream {
                    "send during handshake failed: "
                } else {
                    "send during handshake: "
                },
                Stage::Request => if stream {
                    ""
                } else {
                    "send after CONNECT: "
                },
                Stage::Response => if stream {
                    "send during CONNECT wait failed: "
                } else {
                    "send during CONNECT wait: "
                },
            },
            SetupError::Socket(stage, _) => match stage {
                Stage::Handshake => if stream {
                    "send during handshake failed: "
                } else {
                    ""
                },
                Stage::Response => if stream {
                    "send during CONNECT wait failed: "
                } else {
                    ""
                },
                _ => "",
            },
            SetupError::Receive(stage, _) => match stage {
                Stage::Handshake => if stream {
                    "UDP recv during handshake failed: "
                } else {
                    ""
                },
                Stage::Response => if stream {
                    "UDP recv before CONNECT response failed: "
                } else {
                    ""
                },
                _ => "",
            },
            SetupError::Closed(stage) => match stage {
                Stage::Response => "connection closed before CONNECT response",
                _ => "connection closed during handshake",
            },
            SetupError::NoCertificate => "peer did not provide a certificate",
            SetupError::KeyMismatch =>
                "peer certificate public key does not match pinned endpoint key",
            SetupError::H3Config(_) => if stream {
                ""
            } else {
                "h3 config: "
            },
            SetupError::H3Connection(_) => if stream {
                ""
            } else {
                "h3 connection: "
            },
            SetupError::Request(_) => if stream {
                ""
            } else {
                "send CONNECT request: "
            },
            SetupError::H3Poll(_) => "h3 poll error: ",
            SetupError::Rejected(_) => "CONNECT rejected with status ",
            SetupError::TimedOut => "timed out waiting for CONNECT response",
        };
        let cause = match self {
            SetupError::Quic(_, text) => text.as_str(),
            SetupError::Socket(_, text) => text.as_str(),
            SetupError::Receive(_, text) => text.as_str(),
            SetupError::H3Config(text) => text.as_str(),
            SetupError::H3Connection(text) => text.as_str(),
            SetupError::Request(text) => text.as_str(),
            SetupError::H3Poll(text) => text.as_str(),
            SetupError::Rejected(text) => text.as_str(),
            _ => "",
        };
        let mut m = lead.to_owned();
        m.append(cause);
        m
    }
}

/// The headers of the CONNECT request.
pub open spec fn connect_header_texts() -> Seq<(Seq<char>, Seq<char>)> {
    seq![
        (":method"@, "CONNECT"@),
        (":protocol"@, "cf-connect-ip"@),
        (":scheme"@, "https"@),
        (":authority"@, "cloudflareaccess.com"@),
        (":path"@, "/"@),
        ("capsule-protocol"@, "?1"@),
        ("user-agent"@, ""@),
    ]
}

/// The headers of the CONNECT request.
pub fn connect_request_headers() -> (r: Vec<(String, String)>)
    ensures
        header_views(r@) == connect_header_texts(),
{
    let r: Vec<(String, String)> = vec![
        (":method".to_owned(), "CONNECT".to_owned()),
        (":protocol".to_owned(), "cf-connect-ip".to_owned()),
        (":scheme".to_owned(), "https".to_owned()),
        (":authority".to_owned(), "cloudflareaccess.com".to_owned()),
        (":path".to_owned(), "/".to_owned()),
        ("capsule-protocol".to_owned(), "?1".to_owned()),
        ("user-agent".to_owned(), "".to_owned()),
    ];
    assert(header_views(r@) =~= connect_header_texts());
    r
}

/// A connection identifier drawn at random.
pub fn random_connection_id() -> (r: Result<Vec<u8>, SetupError>)
    ensures
        match r {
            Ok(id) => id@.len() == CONNECTION_ID_LEN,
            Err(e) => e is Rng,
        },
{
    match random_bytes(CONNECTION_ID_LEN) {
        Ok(id) => Ok(id),
        Err(_) => Err(SetupError::Rng),
    }
}

/// How long to wait for a datagram while the session is brought up: as long as the transport
/// says, or a tenth of a second where it does not say.
pub open spec fn setup_wait(quic: Option<Duration>) -> nat {
    match quic {
        Some(d) => d@,
        None => 100_000_000,
    }
}

/// How long to wait for a datagram while the session is brought up.
pub fn setup_timeout(quic: Option<Duration>) -> (r: Duration)
    ensures
        r@ == setup_wait(quic),
        quic matches Some(d) ==> r == d,
{
    match quic {
        Some(d) => d,
        None => Duration::from_millis(100),
    }
}

/// A header of an HTTP/3 message.
pub type Header = (Vec<u8>, Vec<u8>);

/// The bytes of `:status`.
pub open spec fn status_name() -> Seq<u8> {
    seq![58, 115, 116, 97, 116, 117, 115]
}

/// A status as text; a question mark where it is not text.
pub open spec fn status_text(value: Seq<u8>) -> Seq<char> {
    if valid_utf8(value) {
        decode_utf8(value)
    } else {
        "?"@
    }
}

/// What the headers of an answer say.
#[derive(Debug)]
pub enum Verdict {
    /// Nothing: there is no status among them.
    Silent,
    /// Every status among them begins with a 2.
    Accepted,
    /// The first status that does not begin with a 2.
    Rejected(String),
}

/// The first status among `list` that does not begin with a 2.
pub open spec fn refusal(list: Seq<Header>) -> Option<Seq<char>>
    decreases list.len(),
{
    if list.len() == 0 {
        None
    } else {
        match refusal(list.drop_last()) {
            Some(text) => Some(text),
            None => {
                let text = status_text(list.last().1@);
                if list.last().0@ == status_name() && !(text.len() > 0 && text[0] == '2') {
                    Some(text)
                } else {
                    None
                }
            },
        }
    }
}

/// Whether there is a status among `list`.
pub open spec fn has_status(list: Seq<Header>) -> bool {
    exists|i: int| 0 <= i < list.len() && (#[trigger] list[i]).0@ == status_name()
}

impl Verdict {
    /// This is what the headers say.
    pub open spec fn on(self, list: Seq<Header>) -> bool {
        match refusal(list) {
            Some(text) => self matches Verdict::Rejected(s) && s@ == text,
            None => if has_status(list) {
                self is Accepted
            } else {
                self is Silent
            },
        }
    }
}

/// Reads the status in the headers of an answer.
pub fn connect_verdict(list: &Vec<Header>) -> (r: Verdict)
    ensures
        r.on(list@),
{
    let name: Vec<u8> = vec![58u8, 115u8, 116u8, 97u8, 116u8, 117u8, 115u8];
    assert(name@ =~= status_name());
    let mut seen = false;
    let mut i: usize = 0;
    while i < list.len()
        invariant
            i <= list.len(),
            name@ == status_name(),
            refusal(list@.take(i as int)) is None,
            seen == has_status(list@.take(i as int)),
        decreases list.len() - i,
    {
        let ghost before = list@.take(i as int);
        let ghost after = list@.take(i + 1);
        assert(after.drop_last() =~= before);
        let header = &list[i];
        if same_bytes(header.0.as_slice(), name.as_slice()) {
            let text = match utf8_text(header.1.as_slice()) {
                Some(text) => text,
                None => "?",
            };
            if text.unicode_len() == 0 || text.get_char(0) != '2' {
                proof {
                    lemma_refusal_stays(list@, i + 1);
                }
                return Verdict::Rejected(text.to_owned());
            }
            seen = true;
            assert(after[i as int].0@ == status_name());
            assert(has_status(after));
        } else {
            assert(has_status(after) == has_status(before)) by {
                assert forall|k: int| 0 <= k < after.len() && (#[trigger] after[k]).0@ == status_name() implies k
                    < i && before[k] == after[k] by {}
                assert forall|k: int| 0 <= k < before.len() implies before[k] == after[k] by {}
            }
        }
        i = i + 1;
    }
    assert(list@.take(i as int) =~= list@);
    if seen {
        Verdict::Accepted
    } else {
        Verdict::Silent
    }
}

/// A refusal among the first headers is the refusal of them all.
proof fn lemma_refusal_stays(list: Seq<Header>, n: int)
    requires
        0 <= n <= list.len(),
        refusal(list.take(n)) is Some,
    ensures
        refusal(list) == refusal(list.take(n)),
    decreases list.len() - n,
{
    if n == list.len() {
        assert(list.take(n) =~= list);
    } else {
        assert(list.take(n + 1).drop_last() =~= list.take(n));
        lemma_refusal_stays(list, n + 1);
    }
}

/// Where the set-up stands: what it was last told to do.
#[derive(Debug, Clone, Copy, PartialEq, Eq, Structural)]
pub enum Phase {
    /// The transport was asked for a packet.
    Making(Stage),
    /// The socket was asked to send one.
    Sending(Stage),
    /// The socket is waited for, and the timer.
    Waiting(Stage),
    /// The transport was told of a datagram or of the timer.
    Telling(Stage),
    /// The transport was asked whether the handshake is over.
    CheckingHandshake,
    /// The transport was asked for the server's certificate.
    CheckingPeer,
    /// HTTP/3 was asked to start and to send the CONNECT request.
    Requesting,
    /// HTTP/3 was asked for an event.
    Polling,
    /// The transport was asked whether it is closed, after a round of waiting for the answer.
    CheckingResponse,
    /// The session is up.
    Ready,
    /// The session could not be brought up.
    Failed,
}

/// What happened.
#[derive(Debug)]
pub enum SetupEvent {
    /// The transport made a packet of this length for this address.
    PacketMade { len: usize, to: SocketAddress },
    /// The transport has nothing to send.
    NothingToSend,
    /// The transport could not make a packet.
    QuicSendFailed(String),
    /// The packet was sent.
    PacketSent,
    /// The packet was not sent.
    SocketSendFailed(String),
    /// A datagram of this length arrived.
    Datagram(usize),
    /// The socket could not receive.
    ReceiveFailed(String),
    /// The timer ran out.
    TimerFired,
    /// The transport was told. What it made of it does not matter.
    Told,
    /// How the transport stands.
    Status { established: bool, closed: bool },
    /// The server's certificate, where it showed one.
    PeerCertificate(Option<Vec<u8>>),
    /// The CONNECT request went out on this stream.
    RequestSent(u64),
    /// HTTP/3 could not be configured.
    H3ConfigFailed(String),
    /// HTTP/3 could not be started.
    H3ConnectionFailed(String),
    /// The CONNECT request could not be sent.
    RequestFailed(String),
    /// Headers arrived on a stream.
    Headers { stream_id: u64, list: Vec<Header> },
    /// HTTP/3 reported something else.
    OtherH3Event,
    /// HTTP/3 has nothing to report.
    H3Done,
    /// HTTP/3 failed.
    H3Failed(String),
}

/// What to do next.
#[derive(Debug)]
pub enum SetupAction {
    /// Ask the transport for a packet.
    MakePacket,
    /// Send the packet.
    SendPacket { len: usize, to: SocketAddress },
    /// Wait for a datagram, no longer than `setup_timeout` says.
    Wait,
    /// Hand the datagram of this length to the transport.
    Deliver(usize),
    /// Tell the transport that its timer ran out.
    Expire,
    /// Ask the transport how it stands.
    ReadStatus,
    /// Ask the transport for the server's certificate.
    ReadPeerCertificate,
    /// Start HTTP/3 with extended CONNECT, and send the CONNECT request.
    SendRequest,
    /// Ask HTTP/3 for an event.
    PollH3,
    /// The session is up, with this flow.
    Finish { flow_id: u64 },
    /// The session could not be brought up.
    Fail(SetupError),
}

/// Whether a server that shows this certificate is let in: if the certified key is the pinned one.
/// A server that shows none is not.
pub open spec fn admits(pinned: Seq<u8>, certificate: Option<Vec<u8>>) -> bool {
    certificate matches Some(der) && certificate_spki(der@) == Some(pinned)
}

/// A session on its way up.
pub struct SessionSetup {
    pub dialect: Dialect,
    /// The key that the server must have.
    pub pinned: Vec<u8>,
    pub phase: Phase,
    /// How often the answer has been waited for in vain.
    pub round: u32,
    /// The stream of the CONNECT request, once it is sent.
    pub stream_id: u64,
    /// Whether the server accepted.
    pub accepted: bool,
}

impl SessionSetup {
    /// The rounds are within their limit, and only the stages with a wait in them wait.
    pub open spec fn wf(self) -> bool {
        &&& self.round <= RESPONSE_ROUNDS
        &&& self.phase != Phase::Failed ==> self.round < RESPONSE_ROUNDS
        &&& match self.phase {
            Phase::Waiting(stage) | Phase::Telling(stage) => stage == Stage::Handshake || stage
                == Stage::Response,
            _ => true,
        }
    }

    /// A set-up that has not begun.
    pub open spec fn fresh(self) -> bool {
        &&& self.phase == Phase::Making(Stage::Opening)
        &&& self.round == 0
        &&& !self.accepted
    }

    /// The event answers what was last asked for.
    pub open spec fn expects(self, event: SetupEvent) -> bool {
        match self.phase {
            Phase::Making(_) => event is PacketMade || event is NothingToSend || event
                is QuicSendFailed,
            Phase::Sending(_) => event is PacketSent || event is SocketSendFailed,
            Phase::Waiting(_) => event is Datagram || event is ReceiveFailed || event is TimerFired,
            Phase::Telling(_) => event is Told,
            Phase::CheckingHandshake => event is Status,
            Phase::CheckingPeer => event is PeerCertificate,
            Phase::Requesting => event is RequestSent || event is H3ConfigFailed || event
                is H3ConnectionFailed || event is RequestFailed,
            Phase::Polling => event is Headers || event is OtherH3Event || event is H3Done || event
                is H3Failed,
            Phase::CheckingResponse => event is Status,
            Phase::Ready => false,
            Phase::Failed => false,
        }
    }

    /// Only the phase changes, to `phase`.
    pub open spec fn moved(self, phase: Phase, after: SessionSetup) -> bool {
        after == (SessionSetup { phase, ..self })
    }

    /// The set-up fails.
    pub open spec fn failed(self, error: SetupError, after: SessionSetup, action: SetupAction) -> bool {
        self.moved(Phase::Failed, after) && action == SetupAction::Fail(error)
    }

    /// What comes after all packets of a stage are sent.
    pub open spec fn flushed(self, stage: Stage, after: SessionSetup, action: SetupAction) -> bool {
        match stage {
            Stage::Opening => self.moved(Phase::Waiting(Stage::Handshake), after) && action
                is Wait,
            Stage::Handshake => self.moved(Phase::CheckingHandshake, after) && action is ReadStatus,
            Stage::Request => self.moved(Phase::Waiting(Stage::Response), after) && action is Wait,
            Stage::Response => self.moved(Phase::CheckingResponse, after) && action is ReadStatus,
        }
    }

    /// How the set-up goes on after an event that it expects.
    pub open spec fn follows(
        self,
        event: SetupEvent,
        after: SessionSetup,
        action: SetupAction,
    ) -> bool {
        match (self.phase, event) {
            (Phase::Making(stage), SetupEvent::PacketMade { len, to }) => self.moved(
                Phase::Sending(stage),
                after,
            ) && action == (SetupAction::SendPacket { len, to }),
            (Phase::Making(stage), SetupEvent::NothingToSend) => if stage == Stage::Opening
                && self.dialect == Dialect::Tunnel {
                // A tunnel opens with one packet, which there must be.
                &&& self.moved(Phase::Failed, after)
                &&& action matches SetupAction::Fail(SetupError::Quic(at, text))
                &&& at == Stage::Opening && text@ == "Done"@
            } else {
                self.flushed(stage, after, action)
            },
            (Phase::Making(stage), SetupEvent::QuicSendFailed(text)) => self.failed(
                SetupError::Quic(stage, text),
                after,
                action,
            ),
            (Phase::Sending(stage), SetupEvent::PacketSent) => if stage == Stage::Opening
                && self.dialect == Dialect::Tunnel {
                self.flushed(stage, after, action)
            } else {
                self.moved(Phase::Making(stage), after) && action is MakePacket
            },
            (Phase::Sending(stage), SetupEvent::SocketSendFailed(text)) => self.failed(
                SetupError::Socket(stage, text),
                after,
                action,
            ),
            (Phase::Waiting(stage), SetupEvent::Datagram(len)) => self.moved(
                Phase::Telling(stage),
                after,
            ) && action == SetupAction::Deliver(len),
            (Phase::Waiting(stage), SetupEvent::TimerFired) => self.moved(
                Phase::Telling(stage),
                after,
            ) && action is Expire,
            (Phase::Waiting(stage), SetupEvent::ReceiveFailed(text)) => self.failed(
                SetupError::Receive(stage, text),
                after,
                action,
            ),
            (Phase::Telling(stage), SetupEvent::Told) => if stage == Stage::Response {
                self.moved(Phase::Polling, after) && action is PollH3
            } else {
                self.moved(Phase::Making(stage), after) && action is MakePacket
            },
            (Phase::CheckingHandshake, SetupEvent::Status { established, closed }) =>
                if established {
                    self.moved(Phase::CheckingPeer, after) && action is ReadPeerCertificate
                } else if closed {
                    self.failed(SetupError::Closed(Stage::Handshake), after, action)
                } else {
                    self.moved(Phase::Waiting(Stage::Handshake), after) && action is Wait
                },
            (Phase::CheckingPeer, SetupEvent::PeerCertificate(certificate)) => if admits(
                self.pinned@,
                certificate,
            ) {
                self.moved(Phase::Requesting, after) && action is SendRequest
            } else if certificate is Some {
                self.failed(SetupError::KeyMismatch, after, action)
            } else {
                self.failed(SetupError::NoCertificate, after, action)
            },
            (Phase::Requesting, SetupEvent::RequestSent(stream_id)) => {
                &&& after == (SessionSetup { phase: Phase::Making(Stage::Request), stream_id, ..self })
                &&& action is MakePacket
            },
            (Phase::Requesting, SetupEvent::H3ConfigFailed(text)) => self.failed(
                SetupError::H3Config(text),
                after,
                action,
            ),
            (Phase::Requesting, SetupEvent::H3ConnectionFailed(text)) => self.failed(
                SetupError::H3Connection(text),
                after,
                action,
            ),
            (Phase::Requesting, SetupEvent::RequestFailed(text)) => self.failed(
                SetupError::Request(text),
                after,
                action,
            ),
            (Phase::Polling, SetupEvent::Headers { stream_id, list }) => if stream_id
                != self.stream_id {
                self.moved(Phase::Polling, after) && action is PollH3
            } else {
                match refusal(list@) {
                    Some(status) => {
                        &&& after == (SessionSetup { phase: Phase::Failed, ..self })
                        &&& action matches SetupAction::Fail(SetupError::Rejected(text))
                        &&& text@ == status
                    },
                    None => {
                        &&& after == (SessionSetup {
                            accepted: self.accepted || has_status(list@),
                            ..self
                        })
                        &&& action is PollH3
                    },
                }
            },
            (Phase::Polling, SetupEvent::OtherH3Event) => self.moved(Phase::Polling, after)
                && action is PollH3,
            (Phase::Polling, SetupEvent::H3Done) => self.moved(
                Phase::Making(Stage::Response),
                after,
            ) && action is MakePacket,
            (Phase::Polling, SetupEvent::H3Failed(text)) => self.failed(
                SetupError::H3Poll(text),
                after,
                action,
            ),
            (Phase::CheckingResponse, SetupEvent::Status { closed, .. }) => if self.accepted {
                &&& self.moved(Phase::Ready, after)
                &&& action == (SetupAction::Finish { flow_id: self.flow() as u64 })
            } else if closed {
                self.failed(SetupError::Closed(Stage::Response), after, action)
            } else if self.round + 1 == RESPONSE_ROUNDS {
                &&& after == (SessionSetup { phase: Phase::Failed, round: RESPONSE_ROUNDS, ..self })
                &&& action == SetupAction::Fail(SetupError::TimedOut)
            } else {
                &&& after == (SessionSetup {
                    phase: Phase::Waiting(Stage::Response),
                    round: (self.round + 1) as u32,
                    ..self
                })
                &&& action is Wait
            },
            _ => false,
        }
    }

    /// A set-up that has not begun. Its first action is `SetupAction::MakePacket`.
    pub fn new(dialect: Dialect, pinned: Vec<u8>) -> (r: SessionSetup)
        ensures
            r.fresh(),
            r.wf(),
            r.dialect == dialect,
            r.pinned == pinned,
            r.stream_id == 0,
    {
        SessionSetup {
            dialect,
            pinned,
            phase: Phase::Making(Stage::Opening),
            round: 0,
            stream_id: 0,
            accepted: false,
        }
    }

    /// The flow of a session that is up.
    pub open spec fn flow(self) -> nat {
        (self.stream_id / 4) as nat
    }

    /// The flow of a session that is up.
    pub fn flow_id(&self) -> (r: u64)
        ensures
            r == self.flow(),
            r < VARINT_LIMIT,
    {
        self.stream_id / 4
    }

    fn fail(&mut self, error: SetupError) -> (r: SetupAction)
        ensures
            old(self).failed(error, *final(self), r),
    {
        self.phase = Phase::Failed;
        SetupAction::Fail(error)
    }

    fn go(&mut self, phase: Phase, action: SetupAction) -> (r: SetupAction)
        ensures
            old(self).moved(phase, *final(self)),
            r == action,
    {
        self.phase = phase;
        action
    }

    fn flush_over(&mut self, stage: Stage) -> (r: SetupAction)
        ensures
            old(self).flushed(stage, *final(self), r),
    {
        match stage {
            Stage::Opening => self.go(Phase::Waiting(Stage::Handshake), SetupAction::Wait),
            Stage::Handshake => self.go(Phase::CheckingHandshake, SetupAction::ReadStatus),
            Stage::Request => self.go(Phase::Waiting(Stage::Response), SetupAction::Wait),
            Stage::Response => self.go(Phase::CheckingResponse, SetupAction::ReadStatus),
        }
    }

    /// Sends what there is to send: one packet of the transport after the other, until there is
    /// none left. A tunnel opens with a single packet.
    pub fn flush_conn_send(&mut self, event: SetupEvent) -> (r: SetupAction)
        requires
            old(self).wf(),
            old(self).phase is Making || old(self).phase is Sending,
            old(self).expects(event),
        ensures
            final(self).wf(),
            old(self).follows(event, *final(self), r),
    {
        let single = match self.dialect {
            Dialect::Tunnel => true,
            Dialect::PacketStream => false,
        };
        match (self.phase, event) {
            (Phase::Making(stage), SetupEvent::PacketMade { len, to }) => self.go(
                Phase::Sending(stage),
                SetupAction::SendPacket { len, to },
            ),
            (Phase::Making(stage), SetupEvent::NothingToSend) => if single && stage
                == Stage::Opening {
                self.fail(SetupError::Quic(stage, "Done".to_owned()))
            } else {
                self.flush_over(stage)
            },
            (Phase::Making(stage), SetupEvent::QuicSendFailed(text)) => self.fail(
                SetupError::Quic(stage, text),
            ),
            (Phase::Sending(stage), SetupEvent::SocketSendFailed(text)) => self.fail(
                SetupError::Socket(stage, text),
            ),
            (Phase::Sending(stage), _) => if single && stage == Stage::Opening {
                self.flush_over(stage)
            } else {
                self.go(Phase::Making(stage), SetupAction::MakePacket)
            },
            _ => SetupAction::Wait,
        }
    }

    /// Takes the handshake to its end, then the check of the server's key.
    pub fn complete_handshake(&mut self, event: SetupEvent) -> (r: SetupAction)
        requires
            old(self).wf(),
            old(self).phase == Phase::Waiting(Stage::Handshake) || old(self).phase
                == Phase::Telling(Stage::Handshake) || old(self).phase is CheckingHandshake || old(
                self,
            ).phase is CheckingPeer,
            old(self).expects(event),
        ensures
            final(self).wf(),
            old(self).follows(event, *final(self), r),
    {
        match event {
            SetupEvent::Datagram(len) => self.go(
                Phase::Telling(Stage::Handshake),
                SetupAction::Deliver(len),
            ),
            SetupEvent::TimerFired => self.go(Phase::Telling(Stage::Handshake), SetupAction::Expire),
            SetupEvent::ReceiveFailed(text) => self.fail(
                SetupError::Receive(Stage::Handshake, text),
            ),
            SetupEvent::Status { established, closed } => if established {
                self.go(Phase::CheckingPeer, SetupAction::ReadPeerCertificate)
            } else if closed {
                self.fail(SetupError::Closed(Stage::Handshake))
            } else {
                self.go(Phase::Waiting(Stage::Handshake), SetupAction::Wait)
            },
            SetupEvent::PeerCertificate(Some(der)) => if verify_endpoint_key(
                der.as_slice(),
                self.pinned.as_slice(),
            ) {
                self.go(Phase::Requesting, SetupAction::SendRequest)
            } else {
                self.fail(SetupError::KeyMismatch)
            },
            SetupEvent::PeerCertificate(None) => self.fail(SetupError::NoCertificate),
            _ => self.go(Phase::Making(Stage::Handshake), SetupAction::MakePacket),
        }
    }

    /// Takes the start of HTTP/3 and the CONNECT request to their end.
    pub fn send_connect_request(&mut self, event: SetupEvent) -> (r: SetupAction)
        requires
            old(self).wf(),
            old(self).phase is Requesting,
            old(self).expects(event),
        ensures
            final(self).wf(),
            old(self).follows(event, *final(self), r),
    {
        match event {
            SetupEvent::RequestSent(stream_id) => {
                self.stream_id = stream_id;
                self.phase = Phase::Making(Stage::Request);
                SetupAction::MakePacket
            },
            SetupEvent::H3ConfigFailed(text) => self.fail(SetupError::H3Config(text)),
            SetupEvent::H3ConnectionFailed(text) => self.fail(SetupError::H3Connection(text)),
            SetupEvent::RequestFailed(text) => self.fail(SetupError::Request(text)),
            _ => SetupAction::SendRequest,
        }
    }

    /// Waits for the server's answer: round after round of a datagram or the timer, then all that
    /// HTTP/3 has to report, then all that there is to send.
    pub fn wait_for_connect_response(&mut self, event: SetupEvent) -> (r: SetupAction)
        requires
            old(self).wf(),
            old(self).phase == Phase::Waiting(Stage::Response) || old(self).phase
                == Phase::Telling(Stage::Response) || old(self).phase is Polling || old(
                self,
            ).phase is CheckingResponse,
            old(self).expects(event),
        ensures
            final(self).wf(),
            old(self).follows(event, *final(self), r),
    {
        match event {
            SetupEvent::Datagram(len) => self.go(
                Phase::Telling(Stage::Response),
                SetupAction::Deliver(len),
            ),
            SetupEvent::TimerFired => self.go(Phase::Telling(Stage::Response), SetupAction::Expire),
            SetupEvent::ReceiveFailed(text) => self.fail(SetupError::Receive(Stage::Response, text)),
            SetupEvent::Headers { stream_id, list } => {
                if stream_id == self.stream_id {
                    match connect_verdict(&list) {
                        Verdict::Silent => {},
                        Verdict::Accepted => {
                            self.accepted = true;
                        },
                        Verdict::Rejected(status) => {
                            return self.fail(SetupError::Rejected(status));
                        },
                    }
                }
                SetupAction::PollH3
            },
            SetupEvent::H3Failed(text) => self.fail(SetupError::H3Poll(text)),
            SetupEvent::H3Done => self.go(Phase::Making(Stage::Response), SetupAction::MakePacket),
            SetupEvent::Status { closed, .. } => if self.accepted {
                self.phase = Phase::Ready;
                SetupAction::Finish { flow_id: self.stream_id / 4 }
            } else if closed {
                self.fail(SetupError::Closed(Stage::Response))
            } else {
                self.round = self.round + 1;
                if self.round == RESPONSE_ROUNDS {
                    self.fail(SetupError::TimedOut)
                } else {
                    self.go(Phase::Waiting(Stage::Response), SetupAction::Wait)
                }
            },
            _ => self.go(Phase::Polling, SetupAction::PollH3),
        }
    }

    /// Takes in what happened and says what to do next.
    pub fn step(&mut self, event: SetupEvent) -> (r: SetupAction)
        requires
            old(self).wf(),
            old(self).expects(event),
        ensures
            final(self).wf(),
            old(self).follows(event, *final(self), r),
    {
        match self.phase {
            Phase::Making(_) => self.flush_conn_send(event),
            Phase::Sending(_) => self.flush_conn_send(event),
            Phase::Waiting(Stage::Response) => self.wait_for_connect_response(event),
            Phase::Waiting(_) => self.complete_handshake(event),
            Phase::Telling(Stage::Response) => self.wait_for_connect_response(event),
            Phase::Telling(_) => self.complete_handshake(event),
            Phase::CheckingHandshake => self.complete_handshake(event),
            Phase::CheckingPeer => self.complete_handshake(event),
            Phase::Requesting => self.send_connect_request(event),
            Phase::Polling => self.wait_for_connect_response(event),
            Phase::CheckingResponse => self.wait_for_connect_response(event),
            Phase::Ready => SetupAction::Wait,
            Phase::Failed => SetupAction::Wait,
        }
    }
}

/// The states that a set-up went through and the events in between, as `SessionSetup::step`
/// takes them.
pub struct SetupRun {
    pub states: Seq<SessionSetup>,
    pub events: Seq<SetupEvent>,
    pub actions: Seq<SetupAction>,
}

impl SetupRun {
    /// Each state follows from the one before, and the first has not begun.
    pub open spec fn valid(self) -> bool {
        &&& self.states.len() == self.events.len() + 1
        &&& self.actions.len() == self.events.len()
        &&& self.states[0].fresh()
        &&& forall|i: int| #![trigger self.events[i]]
            0 <= i < self.events.len() ==> self.states[i].expects(self.events[i])
                && self.states[i].follows(self.events[i], self.states[i + 1], self.actions[i])
    }

    /// The run without its last event.
    pub open spec fn before_last(self) -> SetupRun {
        SetupRun {
            states: self.states.drop_last(),
            events: self.events.drop_last(),
            actions: self.actions.drop_last(),
        }
    }

    /// Event `i` is the server's certificate, and the server is let in.
    pub open spec fn admitted_at(self, i: int) -> bool {
        &&& 0 <= i < self.events.len()
        &&& self.states[i].phase is CheckingPeer
        &&& self.events[i] matches SetupEvent::PeerCertificate(certificate)
        &&& admits(self.states[0].pinned@, certificate)
    }

    /// Event `i` is the server's answer to the CONNECT request, and every status in it begins
    /// with a 2.
    pub open spec fn accepted_at(self, i: int) -> bool {
        &&& 0 <= i < self.events.len()
        &&& self.states[i].phase is Polling
        &&& self.events[i] matches SetupEvent::Headers { stream_id, list }
        &&& stream_id == self.states[i].stream_id
        &&& has_status(list@)
        &&& refusal(list@) is None
    }
}

/// Whether the server has been let in by the time of this phase.
spec fn past_admission(phase: Phase) -> bool {
    match phase {
        Phase::Making(stage) => stage == Stage::Request || stage == Stage::Response,
        Phase::Sending(stage) => stage == Stage::Request || stage == Stage::Response,
        Phase::Waiting(stage) => stage == Stage::Response,
        Phase::Telling(stage) => stage == Stage::Response,
        Phase::Requesting => true,
        Phase::Polling => true,
        Phase::CheckingResponse => true,
        Phase::Ready => true,
        _ => false,
    }
}

/// What holds at the end of every run.
proof fn lemma_run(run: SetupRun)
    requires
        run.valid(),
    ensures
        run.states.last().wf(),
        run.states.last().dialect == run.states[0].dialect,
        run.states.last().pinned == run.states[0].pinned,
        past_admission(run.states.last().phase) ==> exists|i: int| #[trigger] run.admitted_at(i),
        run.states.last().phase is Ready ==> run.states.last().accepted,
        run.states.last().accepted && !past_admission(run.states.last().phase)
            ==> run.states.last().phase is Failed,
        run.states.last().accepted ==> exists|i: int, j: int|
            i < j && #[trigger] run.admitted_at(i) && #[trigger] run.accepted_at(j),
    decreases run.events.len(),
{
    if run.events.len() > 0 {
        let prior = run.before_last();
        let n = run.events.len() - 1;
        assert forall|i: int| 0 <= i < prior.events.len() implies prior.states[i].expects(
            #[trigger] prior.events[i],
        ) && prior.states[i].follows(prior.events[i], prior.states[i + 1], prior.actions[i]) by {
            assert(prior.events[i] == run.events[i]);
            assert(prior.states[i + 1] == run.states[i + 1]);
        }
        lemma_run(prior);
        let before = run.states[n];
        let after = run.states[n + 1];
        assert(prior.states.last() == before);
        assert(before.follows(run.events[n], after, run.actions[n]));
        assert(forall|i: int| #[trigger] prior.admitted_at(i) ==> run.admitted_at(i));
        assert(forall|i: int| #[trigger] prior.accepted_at(i) ==> run.accepted_at(i));
        if past_admission(after.phase) {
            if past_admission(before.phase) {
                let i = choose|i: int| #[trigger] prior.admitted_at(i);
                assert(run.admitted_at(i));
            } else {
                assert(run.admitted_at(n));
            }
        }
        if after.accepted {
            if before.accepted {
                let (i, j) = choose|i: int, j: int|
                    i < j && #[trigger] prior.admitted_at(i) && #[trigger] prior.accepted_at(j);
                assert(run.admitted_at(i) && run.accepted_at(j));
            } else {
                let i = choose|i: int| #[trigger] prior.admitted_at(i);
                assert(run.admitted_at(i) && run.accepted_at(n) && i < n);
            }
        }
    }
}

/// No session without the pinned key: a session comes up only after the server showed a certificate
/// of that key.
pub proof fn law_ready_means_pinned(run: SetupRun)
    requires
        run.valid(),
        run.states.last().phase is Ready,
    ensures
        exists|i: int| #[trigger] run.admitted_at(i),
{
    lemma_run(run);
}

/// No session without the server's consent: a session comes up only after the server, already let
/// in, answered the CONNECT request with a status that begins with a 2.
pub proof fn law_ready_means_accepted(run: SetupRun)
    requires
        run.valid(),
        run.states.last().phase is Ready,
    ensures
        exists|i: int, j: int|
            i < j && #[trigger] run.admitted_at(i) && #[trigger] run.accepted_at(j),
{
    lemma_run(run);
}

/// The CONNECT request is sent only to a server that was let in.
pub proof fn law_request_follows_pinning(run: SetupRun)
    requires
        run.valid(),
        run.states.last().phase is Requesting,
    ensures
        exists|i: int| #[trigger] run.admitted_at(i),
{
    lemma_run(run);
}

/// A server without a certificate of the pinned key gets nothing: the set-up ends there, with the
/// error that says why, and no CONNECT request follows.
pub proof fn law_unpinned_is_turned_away(run: SetupRun, i: int, certificate: Option<Vec<u8>>)
    requires
        run.valid(),
        0 <= i < run.events.len(),
        run.events[i] == SetupEvent::PeerCertificate(certificate),
        !admits(run.states[0].pinned@, certificate),
    ensures
        i == run.events.len() - 1,
        run.states.last().phase is Failed,
        run.actions[i] == SetupAction::Fail(
            if certificate is None {
                SetupError::NoCertificate
            } else {
                SetupError::KeyMismatch
            },
        ),
{
    lemma_pinned_stays(run, i);
    assert(run.states[i].expects(run.events[i]));
    assert(run.states[i].follows(run.events[i], run.states[i + 1], run.actions[i]));
    if i + 1 < run.events.len() {
        assert(run.states[i + 1].expects(run.events[i + 1]));
    }
}

/// The pinned key never changes.
proof fn lemma_pinned_stays(run: SetupRun, n: int)
    requires
        run.valid(),
        0 <= n < run.states.len(),
    ensures
        run.states[n].pinned == run.states[0].pinned,
    decreases n,
{
    if n > 0 {
        lemma_pinned_stays(run, n - 1);
        assert(run.states[n - 1].follows(run.events[n - 1], run.states[n], run.actions[n - 1]));
    }
}

/// A server is not waited for without end: no run has more rounds than the limit, and one that
/// has that many has failed.
pub proof fn law_rounds_bounded(run: SetupRun)
    requires
        run.valid(),
    ensures
        run.states.last().round <= RESPONSE_ROUNDS,
        run.states.last().round == RESPONSE_ROUNDS ==> run.states.last().phase is Failed,
{
    lemma_run(run);
}

/// A session that is up or has failed stays so: nothing follows.
pub proof fn law_end_is_final(run: SetupRun, i: int)
    requires
        run.valid(),
        0 <= i < run.events.len(),
    ensures
        !(run.states[i].phase is Ready),
        !(run.states[i].phase is Failed),
{
    assert(run.states[i].expects(run.events[i]));
}

} // verus!
