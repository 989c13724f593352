//! A session as a stream and a sink of IP packets.
//!
//! `MasquePacketStream` holds the queues and the state; the socket, the transport and HTTP/3 are
//! outside. Each polling function is told how the last outside call ended, and says which call to
//! make next or what to return.
use crate::clock::{sleep_at_most, sleep_length, Duration};
use crate::datagram::{build_flow_prefix, flow_prefix};
use crate::net::{NamedAddress, SocketAddress};
use crate::setup::{Dialect, SessionSetup, SetupError};
use std::collections::VecDeque;
use vstd::prelude::*;
use vstd::string::StringExecFns;

verus! {

/// The largest datagram that the transport makes or takes, in bytes.
pub const MAX_DATAGRAM_SIZE: usize = 1_350;

/// How many packets a queue holds.
pub const DEFAULT_QUEUE_CAPACITY: usize = 32_768;

/// What a session needs to know beyond the configuration of the account.
#[derive(Debug)]
pub struct PacketSessionConfig {
    pub endpoint: SocketAddress,
    pub bind: Option<SocketAddress>,
    pub sni: String,
    pub keepalive_period: Duration,
    pub mtu: u32,
}

/// How a session stands.
#[derive(Debug, Clone, Copy, PartialEq, Eq, Structural)]
pub enum PacketSessionState {
    Idle,
    Connecting,
    Handshaking,
    Ready,
    Reconnecting,
    Closed,
}

/// How the set-up of a session ended without a session.
#[derive(Debug)]
pub enum SessionLoopOutcome {
    Reconnect(String),
}

impl SessionLoopOutcome {
    /// The reason.
    pub fn into_message(self) -> (r: String)
        ensures
            self == SessionLoopOutcome::Reconnect(r),
    {
        match self {
            SessionLoopOutcome::Reconnect(reason) => reason,
        }
    }

    /// The outcome of a set-up that failed.
    pub fn from_setup(error: &SetupError) -> (r: SessionLoopOutcome)
        ensures
            r matches SessionLoopOutcome::Reconnect(reason) && reason@ == error.lead(
                Dialect::PacketStream,
            ) + error.cause(),
    {
        SessionLoopOutcome::Reconnect(error.message(Dialect::PacketStream))
    }
}

/// The kind of an I/O error.
#[derive(Debug, Clone, Copy, PartialEq, Eq, Structural)]
pub enum ErrorKind {
    Other,
    BrokenPipe,
    WouldBlock,
    WriteZero,
    /// As the system reported it.
    Reported,
}

/// What went wrong in a stream.
#[derive(Debug)]
pub enum StreamError {
    /// The stream is closed.
    Closed,
    /// The stream failed before, with this text.
    Terminal(String),
    /// The outgoing queue is full.
    QueueFull,
    /// The socket took only a part of a packet.
    PartialSend,
    /// The transport closed the connection.
    ConnectionClosed,
    /// The transport made a packet for another address than the server's.
    UnexpectedTarget { to: String, expected: String },
    /// HTTP/3 failed.
    H3Poll(String),
    /// The transport could not make a packet.
    Quic(String),
    /// The socket failed.
    Socket(String),
}

impl StreamError {
    /// The message.
    pub open spec fn text(self) -> Seq<char> {
        match self {
            StreamError::Closed => "MASQUE stream closed"@,
            StreamError::Terminal(text) => text@,
            StreamError::QueueFull => "MASQUE outbound queue is full"@,
            StreamError::PartialSend => "partial UDP send"@,
            StreamError::ConnectionClosed => "MASQUE connection closed"@,
            StreamError::UnexpectedTarget { to, expected } => "unexpected QUIC send target "@ + to@
                + " (expected "@ + expected@ + ")"@,
            StreamError::H3Poll(text) => "h3 poll error: "@ + text@,
            StreamError::Quic(text) => text@,
            StreamError::Socket(text) => text@,
        }
    }

    /// The message.
    pub fn message(&self) -> (r: String)
        ensures
            r@ == self.text(),
    {
        match self {
            StreamError::Closed => "MASQUE stream closed".to_owned(),
            StreamError::Terminal(text) => text.clone(),
            StreamError::QueueFull => "MASQUE outbound queue is full".to_owned(),
            StreamError::PartialSend => "partial UDP send".to_owned(),
            StreamError::ConnectionClosed => "MASQUE connection closed".to_owned(),
            StreamError::UnexpectedTarget { to, expected } => {
                let mut m = "unexpected QUIC send target ".to_owned();
                m.append(to.as_str());
                m.append(" (expected ");
                m.append(expected.as_str());
                m.append(")");
                m
            },
            StreamError::H3Poll(text) => {
                let mut m = "h3 poll error: ".to_owned();
                m.append(text.as_str());
                m
            },
            StreamError::Quic(text) => text.clone(),
            StreamError::Socket(text) => text.clone(),
        }
    }

    /// The kind of I/O error that this is.
    pub open spec fn io_kind(self) -> ErrorKind {
        match self {
            StreamError::Closed => ErrorKind::BrokenPipe,
            StreamError::QueueFull => ErrorKind::WouldBlock,
            StreamError::PartialSend => ErrorKind::WriteZero,
            StreamError::Socket(_) => ErrorKind::Reported,
            _ => ErrorKind::Other,
        }
    }

    /// The kind of I/O error that this is.
    pub fn kind(&self) -> (r: ErrorKind)
        ensures
            r == self.io_kind(),
    {
        match self {
            StreamError::Closed => ErrorKind::BrokenPipe,
            StreamError::QueueFull => ErrorKind::WouldBlock,
            StreamError::PartialSend => ErrorKind::WriteZero,
            StreamError::Socket(_) => ErrorKind::Reported,
            _ => ErrorKind::Other,
        }
    }
}

/// How a pass over one outside resource ended.
#[derive(Debug)]
pub enum PassPoll {
    /// It is over; whether anything was done.
    Ready(bool),
    /// Nothing was done, and the resource is not ready.
    Pending,
    Failed(StreamError),
}

/// How driving the session ended.
#[derive(Debug)]
pub enum DrivePoll {
    /// Something was done, and now there is nothing to do.
    Done,
    /// There was nothing to do.
    Pending,
    Failed(StreamError),
}

/// A packet of the transport that the socket has not taken yet.
#[derive(Debug)]
pub struct PendingUdpSend {
    pub len: usize,
    pub to: NamedAddress,
}

/// What to do for the next packet.
#[derive(Debug)]
pub enum NextStep {
    /// Drive the session and come back with how that ended.
    Drive,
    /// Return this packet.
    Packet(Vec<u8>),
    /// Return this error.
    Error(StreamError),
    /// Return that the stream is over.
    End,
    /// Return that there is nothing yet.
    Pending,
}

/// What to do for room in the outgoing queue.
#[derive(Debug)]
pub enum ReadyStep {
    /// Drive the session and come back with how that ended.
    Drive,
    /// Return that there is room.
    Ready,
    /// Return that there is no room yet.
    Pending,
    /// Return this error.
    Failed(StreamError),
}

/// What happened while the queue is being flushed.
#[derive(Debug)]
pub enum FlushEvent {
    /// The flush begins.
    Begin,
    /// The session was driven, with so many packets in the queue before.
    Driven { queue_before: usize, outcome: DrivePoll },
    /// The transport's packets were sent, once the queue was empty.
    Sent(PassPoll),
}

/// What to do to flush the queue.
#[derive(Debug)]
pub enum FlushStep {
    /// Drive the session and come back with how that ended and with this length.
    Drive { queue_before: usize },
    /// Send the transport's packets and come back with how that ended.
    Send,
    /// Return that all is flushed.
    Done,
    /// Return that it is not flushed yet.
    Pending,
    /// Return this error.
    Failed(StreamError),
}

/// How flushing the queue ended.
#[derive(Debug)]
pub enum FlushPoll {
    Done,
    Pending,
    Failed(StreamError),
}

/// What to do to close the stream.
#[derive(Debug)]
pub enum CloseStep {
    /// Close the connection with this application error code and reason, whatever comes of it;
    /// then flush and come back with how that ended.
    CloseAndFlush { code: u64, reason: &'static str },
    /// Flush and come back with how that ended.
    Flush,
    /// Return that the stream is closed.
    Done,
    /// Return that it is not closed yet.
    Pending,
    /// Return this error.
    Failed(StreamError),
}

/// A session as a stream and a sink of IP packets.
pub struct MasquePacketStream {
    pub flow_prefix: Vec<u8>,
    /// The packets to send, the first to go first.
    pub outbound_queue: VecDeque<Vec<u8>>,
    /// The packets received, the first to arrive first.
    pub inbound_queue: VecDeque<Vec<u8>>,
    /// The packet that is being looked at, to be taken in or not.
    pub examining: Option<Vec<u8>>,
    pub endpoint: NamedAddress,
    pub keepalive_period: Duration,
    pub state: PacketSessionState,
    pub pending_send: Option<PendingUdpSend>,
    /// The first error that ended the session.
    pub terminal_error: Option<String>,
    /// Whether the stream has reported that error, or was closed without one.
    pub emitted_terminal_error: bool,
}

impl MasquePacketStream {
    /// The queues are within their capacity, and a session that failed is closed.
    pub open spec fn wf(self) -> bool {
        &&& self.outbound_queue@.len() <= DEFAULT_QUEUE_CAPACITY
        &&& self.inbound_queue@.len() <= DEFAULT_QUEUE_CAPACITY
        &&& self.terminal_error is Some ==> self.state == PacketSessionState::Closed
    }

    /// The text of the first error that ended the session.
    pub open spec fn terminal(self) -> Option<Seq<char>> {
        match self.terminal_error {
            Some(text) => Some(text@),
            None => None,
        }
    }

    /// The session is closed, with `text` as its error unless it had one before.
    pub open spec fn shut(self, text: Seq<char>, after: MasquePacketStream) -> bool {
        &&& after.terminal() == match self.terminal() {
            Some(first) => Some(first),
            None => Some(text),
        }
        &&& after == (MasquePacketStream {
            state: PacketSessionState::Closed,
            terminal_error: after.terminal_error,
            ..self
        })
    }

    /// This is the stream of a session that a set-up has just brought up: both queues are empty and
    /// nothing has failed.
    pub open spec fn connected(
        self,
        session_cfg: PacketSessionConfig,
        endpoint_text: String,
        setup: SessionSetup,
    ) -> bool {
        &&& self.wf()
        &&& self.flow_prefix@ == flow_prefix(setup.flow())
        &&& self.outbound_queue@ == Seq::<Vec<u8>>::empty()
        &&& self.inbound_queue@ == Seq::<Vec<u8>>::empty()
        &&& self.examining is None
        &&& self.endpoint == (NamedAddress { addr: session_cfg.endpoint, text: endpoint_text })
        &&& self.keepalive_period == session_cfg.keepalive_period
        &&& self.state == PacketSessionState::Ready
        &&& self.pending_send is None
        &&& self.terminal_error is None
        &&& !self.emitted_terminal_error
    }

    /// The stream of a session that a set-up has brought up.
    pub fn connect(
        session_cfg: &PacketSessionConfig,
        endpoint_text: String,
        setup: &SessionSetup,
    ) -> (r: MasquePacketStream)
        requires
            setup.phase is Ready,
        ensures
            r.connected(*session_cfg, endpoint_text, *setup),
    {
        MasquePacketStream {
            flow_prefix: build_flow_prefix(setup.flow_id()),
            outbound_queue: VecDeque::new(),
            inbound_queue: VecDeque::new(),
            examining: None,
            endpoint: NamedAddress { addr: session_cfg.endpoint, text: endpoint_text },
            keepalive_period: session_cfg.keepalive_period,
            state: PacketSessionState::Ready,
            pending_send: None,
            terminal_error: None,
            emitted_terminal_error: false,
        }
    }

    /// How the session stands.
    pub fn state(&self) -> (r: PacketSessionState)
        ensures
            r == self.state,
    {
        self.state
    }

    /// How long the session may sleep.
    pub fn current_timeout(&self, quic: Option<Duration>) -> (r: Duration)
        ensures
            r == sleep_length(quic, self.keepalive_period),
            r@ <= self.keepalive_period@,
            quic matches Some(d) ==> r@ <= d@,
    {
        sleep_at_most(quic, self.keepalive_period)
    }

    /// Closes the session with an error. The first error stays.
    pub fn set_terminal_error(&mut self, error: String)
        ensures
            *final(self) == (MasquePacketStream {
                state: PacketSessionState::Closed,
                terminal_error: if old(self).terminal_error is Some {
                    old(self).terminal_error
                } else {
                    Some(error)
                },
                ..*old(self)
            }),
            old(self).wf() ==> final(self).wf(),
    {
        self.state = PacketSessionState::Closed;
        if self.terminal_error.is_none() {
            self.terminal_error = Some(error);
        }
    }

    /// The error that ended the session.
    pub fn terminal_io_error(&self) -> (r: StreamError)
        ensures
            r matches StreamError::Terminal(text) && text@ == match self.terminal() {
                Some(first) => first,
                None => "MASQUE stream closed"@,
            },
    {
        match &self.terminal_error {
            Some(text) => StreamError::Terminal(text.clone()),
            None => StreamError::Terminal("MASQUE stream closed".to_owned()),
        }
    }

    /// The error of a stream that is closed.
    pub fn closed_io_error(&self) -> (r: StreamError)
        ensures
            r == StreamError::Closed,
    {
        StreamError::Closed
    }

    /// What the stream yields, when the session need not be driven or has just been: a packet
    /// that arrived, then the error that ended the session, once, then the end.
    pub open spec fn yields(self, after: MasquePacketStream, step: NextStep) -> bool {
        if self.inbound_queue@.len() > 0 {
            &&& step == NextStep::Packet(self.inbound_queue@[0])
            &&& after == (MasquePacketStream { inbound_queue: after.inbound_queue, ..self })
            &&& after.inbound_queue@ == self.inbound_queue@.drop_first()
        } else if self.emitted_terminal_error {
            after == self && step is End
        } else {
            match self.terminal() {
                Some(first) => {
                    &&& step matches NextStep::Error(StreamError::Terminal(text))
                    &&& text@ == first
                    &&& after == (MasquePacketStream { emitted_terminal_error: true, ..self })
                },
                None => after == self && step is Drive,
            }
        }
    }

    /// How asking for the next packet goes on.
    pub open spec fn next_follows(
        self,
        drive: Option<DrivePoll>,
        after: MasquePacketStream,
        step: NextStep,
    ) -> bool {
        match drive {
            Some(DrivePoll::Pending) => after == self && step is Pending,
            Some(DrivePoll::Failed(error)) => exists|shut: MasquePacketStream| #[trigger]
                self.shut(error.text(), shut) && shut.yields(after, step),
            _ => self.yields(after, step),
        }
    }

    /// The next packet. `drive` is how driving the session ended, if that was the last step.
    pub fn poll_next(&mut self, drive: Option<DrivePoll>) -> (r: NextStep)
        requires
            old(self).wf(),
        ensures
            final(self).wf(),
            old(self).next_follows(drive, *final(self), r),
    {
        match drive {
            Some(DrivePoll::Pending) => {
                return NextStep::Pending;
            },
            Some(DrivePoll::Failed(error)) => {
                self.set_terminal_error(error.message());
                assert(old(self).shut(error.text(), *self));
            },
            _ => {},
        }
        if self.inbound_queue.len() > 0 {
            match self.inbound_queue.pop_front() {
                Some(packet) => {
                    return NextStep::Packet(packet);
                },
                None => {},
            }
        }
        if self.emitted_terminal_error {
            return NextStep::End;
        }
        if self.terminal_error.is_some() {
            self.emitted_terminal_error = true;
            return NextStep::Error(self.terminal_io_error());
        }
        NextStep::Drive
    }

    /// Why a packet is not taken.
    pub open spec fn refuses(self, error: StreamError) -> bool {
        if self.state == PacketSessionState::Closed {
            error is Closed
        } else {
            match self.terminal() {
                Some(first) => error matches StreamError::Terminal(text) && text@ == first,
                None => self.outbound_queue@.len() >= DEFAULT_QUEUE_CAPACITY && error is QueueFull,
            }
        }
    }

    /// Whether a packet is taken.
    pub open spec fn accepts(self) -> bool {
        &&& self.state != PacketSessionState::Closed
        &&& self.terminal_error is None
        &&& self.outbound_queue@.len() < DEFAULT_QUEUE_CAPACITY
    }

    /// A packet goes to the end of the outgoing queue, if it is taken.
    pub open spec fn start_follows(
        self,
        item: Vec<u8>,
        after: MasquePacketStream,
        result: Result<(), StreamError>,
    ) -> bool {
        match result {
            Ok(_) => {
                &&& self.accepts()
                &&& after == (MasquePacketStream { outbound_queue: after.outbound_queue, ..self })
                &&& after.outbound_queue@ == self.outbound_queue@.push(item)
            },
            Err(error) => !self.accepts() && self.refuses(error) && after == self,
        }
    }

    /// How asking for room in the outgoing queue goes on.
    pub open spec fn ready_follows(
        self,
        drive: Option<DrivePoll>,
        after: MasquePacketStream,
        step: ReadyStep,
    ) -> bool {
        let room = self.outbound_queue@.len() < DEFAULT_QUEUE_CAPACITY;
        match drive {
            None => after == self && if self.accepts() {
                step is Ready
            } else if self.state == PacketSessionState::Closed || self.terminal_error is Some {
                step matches ReadyStep::Failed(error) && self.refuses(error)
            } else {
                step is Drive
            },
            Some(DrivePoll::Done) => after == self && if room {
                step is Ready
            } else {
                step is Pending
            },
            Some(DrivePoll::Failed(error)) => self.shut(error.text(), after) && step
                == ReadyStep::Failed(error),
            Some(DrivePoll::Pending) => after == self && step is Pending,
        }
    }

    /// Whether there is room in the outgoing queue. `drive` is how driving the session ended, if
    /// that was the last step.
    pub fn poll_ready(&mut self, drive: Option<DrivePoll>) -> (r: ReadyStep)
        requires
            old(self).wf(),
        ensures
            final(self).wf(),
            old(self).ready_follows(drive, *final(self), r),
    {
        match drive {
            None => {
                if self.state == PacketSessionState::Closed {
                    return ReadyStep::Failed(self.closed_io_error());
                }
                if self.terminal_error.is_some() {
                    return ReadyStep::Failed(self.terminal_io_error());
                }
                if self.outbound_queue.len() >= DEFAULT_QUEUE_CAPACITY {
                    return ReadyStep::Drive;
                }
                ReadyStep::Ready
            },
            Some(DrivePoll::Done) => if self.outbound_queue.len() < DEFAULT_QUEUE_CAPACITY {
                ReadyStep::Ready
            } else {
                ReadyStep::Pending
            },
            Some(DrivePoll::Failed(error)) => {
                self.set_terminal_error(error.message());
                ReadyStep::Failed(error)
            },
            Some(DrivePoll::Pending) => ReadyStep::Pending,
        }
    }

    /// Puts a packet at the end of the outgoing queue.
    pub fn start_send(&mut self, item: Vec<u8>) -> (r: Result<(), StreamError>)
        requires
            old(self).wf(),
        ensures
            final(self).wf(),
            old(self).start_follows(item, *final(self), r),
    {
        if self.state == PacketSessionState::Closed {
            return Err(self.closed_io_error());
        }
        if self.terminal_error.is_some() {
            return Err(self.terminal_io_error());
        }
        if self.outbound_queue.len() >= DEFAULT_QUEUE_CAPACITY {
            return Err(StreamError::QueueFull);
        }
        self.outbound_queue.push_back(item);
        Ok(())
    }

    /// How a flush begins or goes on with another drive.
    pub open spec fn flush_begins(self, after: MasquePacketStream, step: FlushStep) -> bool {
        &&& after == self
        &&& match self.terminal() {
            Some(first) => step matches FlushStep::Failed(StreamError::Terminal(text)) && text@
                == first,
            None => step == (FlushStep::Drive {
                queue_before: self.outbound_queue@.len() as usize,
            }),
        }
    }

    /// The event fits the state: what the transport has left is sent only once the outgoing queue is
    /// empty.
    pub open spec fn flush_expects(self, event: FlushEvent) -> bool {
        event is Sent ==> self.outbound_queue@.len() == 0
    }

    /// How a flush goes on.
    pub open spec fn flush_follows(
        self,
        event: FlushEvent,
        after: MasquePacketStream,
        step: FlushStep,
    ) -> bool {
        match event {
            FlushEvent::Begin => self.flush_begins(after, step),
            FlushEvent::Driven { queue_before, outcome } => match outcome {
                DrivePoll::Done => if self.outbound_queue@.len() == 0 {
                    after == self && step is Send
                } else if self.outbound_queue@.len() == queue_before {
                    after == self && step is Pending
                } else {
                    self.flush_begins(after, step)
                },
                DrivePoll::Failed(error) => self.shut(error.text(), after) && step
                    == FlushStep::Failed(error),
                DrivePoll::Pending => after == self && step is Pending,
            },
            FlushEvent::Sent(PassPoll::Ready(_)) => after == self && step is Done,
            FlushEvent::Sent(PassPoll::Failed(error)) => self.shut(error.text(), after) && step
                == FlushStep::Failed(error),
            FlushEvent::Sent(PassPoll::Pending) => after == self && step is Pending,
        }
    }

    /// Drives the session until the outgoing queue is empty and all packets of the transport are
    /// sent.
    pub fn poll_flush(&mut self, event: FlushEvent) -> (r: FlushStep)
        requires
            old(self).wf(),
            old(self).flush_expects(event),
        ensures
            final(self).wf(),
            old(self).flush_follows(event, *final(self), r),
            r is Done ==> final(self).outbound_queue@.len() == 0,
    {
        match event {
            FlushEvent::Begin => {},
            FlushEvent::Driven { queue_before, outcome } => match outcome {
                DrivePoll::Done => {
                    if self.outbound_queue.len() == 0 {
                        return FlushStep::Send;
                    }
                    if self.outbound_queue.len() == queue_before {
                        return FlushStep::Pending;
                    }
                },
                DrivePoll::Failed(error) => {
                    self.set_terminal_error(error.message());
                    return FlushStep::Failed(error);
                },
                DrivePoll::Pending => {
                    return FlushStep::Pending;
                },
            },
            FlushEvent::Sent(PassPoll::Ready(_)) => {
                return FlushStep::Done;
            },
            FlushEvent::Sent(PassPoll::Failed(error)) => {
                self.set_terminal_error(error.message());
                return FlushStep::Failed(error);
            },
            FlushEvent::Sent(PassPoll::Pending) => {
                return FlushStep::Pending;
            },
        }
        if self.terminal_error.is_some() {
            return FlushStep::Failed(self.terminal_io_error());
        }
        FlushStep::Drive { queue_before: self.outbound_queue.len() }
    }

    /// The event fits the state: a flush that is over has left the outgoing queue empty.
    pub open spec fn close_expects(self, flush: Option<FlushPoll>) -> bool {
        flush matches Some(FlushPoll::Done) ==> self.outbound_queue@.len() == 0
    }

    /// How closing the stream goes on.
    pub open spec fn close_follows(
        self,
        flush: Option<FlushPoll>,
        after: MasquePacketStream,
        step: CloseStep,
    ) -> bool {
        match flush {
            None => after == self && if self.terminal_error is None {
                step matches CloseStep::CloseAndFlush { code, reason } && code == 0 && reason@
                    == "stream closed"@
            } else {
                step is Flush
            },
            Some(FlushPoll::Done) => {
                &&& step is Done
                &&& after == (MasquePacketStream {
                    state: PacketSessionState::Closed,
                    emitted_terminal_error: true,
                    ..self
                })
            },
            Some(FlushPoll::Failed(error)) => self.shut(error.text(), after) && step
                == CloseStep::Failed(error),
            Some(FlushPoll::Pending) => after == self && step is Pending,
        }
    }

    /// Closes the stream. `flush` is how flushing ended, if that was the last step.
    pub fn poll_close(&mut self, flush: Option<FlushPoll>) -> (r: CloseStep)
        requires
            old(self).wf(),
            old(self).close_expects(flush),
        ensures
            final(self).wf(),
            old(self).close_follows(flush, *final(self), r),
            r is Done ==> final(self).outbound_queue@.len() == 0,
    {
        match flush {
            None => if self.terminal_error.is_none() {
                CloseStep::CloseAndFlush { code: 0, reason: "stream closed" }
            } else {
                CloseStep::Flush
            },
            Some(FlushPoll::Done) => {
                self.state = PacketSessionState::Closed;
                self.emitted_terminal_error = true;
                CloseStep::Done
            },
            Some(FlushPoll::Failed(error)) => {
                self.set_terminal_error(error.message());
                CloseStep::Failed(error)
            },
            Some(FlushPoll::Pending) => CloseStep::Pending,
        }
    }
}

} // verus!
