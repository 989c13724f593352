//! Forwarding packets between the kernel's network device and a session that is up.
//!
//! `TunnelSession` is told what the device, the socket, the transport and HTTP/3 did and says what
//! to do next, until the connection is closed or something fails.
use crate::burst::BurstError;
use crate::clock::{sleep_at_most, sleep_length, Duration, NANOS_PER_SEC};
use crate::datagram::{
    build_flow_datagram, build_flow_prefix, flow_prefix, ideal_batch_size, packet_offset,
    parse_datagram, stage_tun_packet, staged_packet, TUN_BATCH_SIZE,
};
use crate::drive::{DatagramOutcome, H3Report};
use crate::setup::SessionSetup;
use crate::status::{bytes_text, format_bytes, format_duration, seconds_text};
use crate::text::{decimal, decimal_text};
use crate::tunnel::TunnelError;
use crate::varint::VARINT_LIMIT;
use std::collections::VecDeque;
use vstd::prelude::*;
use vstd::slice::slice_to_vec;
use vstd::string::StringExecFns;

verus! {

/// The packet size, in bytes, that the sender of a packet that is too large is told of.
pub const REPLY_MTU: u32 = 1_280;

/// What went through a session so far.
#[derive(Debug, Clone, Copy, PartialEq, Eq, Structural)]
pub struct TunnelStats {
    pub tx_packets: u64,
    pub rx_packets: u64,
    pub tx_bytes: u64,
    pub rx_bytes: u64,
    pub dropped: u64,
}

impl TunnelStats {
    /// There is room in the counters for one more packet of `len` bytes.
    pub open spec fn room(self, len: int) -> bool {
        &&& self.tx_packets < u64::MAX
        &&& self.rx_packets < u64::MAX
        &&& self.dropped < u64::MAX
        &&& self.tx_bytes + len <= u64::MAX
        &&& self.rx_bytes + len <= u64::MAX
    }

    /// Whether there is room in the counters for one more packet of `len` bytes.
    pub fn has_room(&self, len: usize) -> (r: bool)
        ensures
            r == self.room(len as int),
    {
        let len: u64 = len as u64;
        self.tx_packets < u64::MAX && self.rx_packets < u64::MAX && self.dropped < u64::MAX
            && self.tx_bytes <= u64::MAX - len && self.rx_bytes <= u64::MAX - len
    }

    /// One more packet was sent.
    pub open spec fn sent(self, len: int) -> TunnelStats {
        TunnelStats {
            tx_packets: (self.tx_packets + 1) as u64,
            tx_bytes: (self.tx_bytes + len) as u64,
            ..self
        }
    }

    /// One more packet was received.
    pub open spec fn received(self, len: int) -> TunnelStats {
        TunnelStats {
            rx_packets: (self.rx_packets + 1) as u64,
            rx_bytes: (self.rx_bytes + len) as u64,
            ..self
        }
    }

    /// One more packet was dropped.
    pub open spec fn lost(self) -> TunnelStats {
        TunnelStats { dropped: (self.dropped + 1) as u64, ..self }
    }

    /// The line that shows how the session is doing.
    pub open spec fn line(self, elapsed: Duration, lost: nat, retrans: nat) -> Seq<char> {
        "\r\x1b[2K[connected "@ + seconds_text(elapsed@ / NANOS_PER_SEC as nat) + "] tx: "@
            + decimal(self.tx_packets as nat) + " ("@ + bytes_text(self.tx_bytes as nat)
            + ")  rx: "@ + decimal(self.rx_packets as nat) + " ("@ + bytes_text(
            self.rx_bytes as nat,
        ) + ")  drop: "@ + decimal(self.dropped as nat) + "  lost: "@ + decimal(lost)
            + "  retrans: "@ + decimal(retrans)
    }

    /// The line that shows how the session is doing, with the transport's counts of packets lost
    /// and sent again.
    pub fn status_line(&self, elapsed: Duration, lost: usize, retrans: usize) -> (r: String)
        ensures
            r@ == self.line(elapsed, lost as nat, retrans as nat),
    {
        let mut m = "\r\x1b[2K[connected ".to_owned();
        m.append(format_duration(elapsed).as_str());
        m.append("] tx: ");
        m.append(decimal_text(self.tx_packets).as_str());
        m.append(" (");
        m.append(format_bytes(self.tx_bytes).as_str());
        m.append(")  rx: ");
        m.append(decimal_text(self.rx_packets).as_str());
        m.append(" (");
        m.append(format_bytes(self.rx_bytes).as_str());
        m.append(")  drop: ");
        m.append(decimal_text(self.dropped).as_str());
        m.append("  lost: ");
        m.append(decimal_text(lost as u64).as_str());
        m.append("  retrans: ");
        m.append(decimal_text(retrans as u64).as_str());
        m
    }
}

/// What a wake-up is for: the transport's timer, the keepalive or both.
#[derive(Debug, Clone, Copy, PartialEq, Eq, Structural)]
pub struct Wakeup {
    /// Tell the transport that its timer ran out.
    pub expire: bool,
    /// Make the transport send something that the server answers.
    pub keepalive: bool,
}

/// What a wake-up is for: the one whose time comes first, or both if it is the same.
pub open spec fn wakeup_for(quic: Option<Duration>, keepalive: Duration) -> Wakeup {
    match quic {
        Some(d) => Wakeup { expire: d@ <= keepalive@, keepalive: keepalive@ <= d@ },
        None => Wakeup { expire: false, keepalive: true },
    }
}

/// What a wake-up is for. `quic` is the transport's timer as it was when the sleep began.
pub fn wakeup(quic: Option<Duration>, keepalive: Duration) -> (r: Wakeup)
    ensures
        r == wakeup_for(quic, keepalive),
{
    match quic {
        Some(d) => Wakeup { expire: d.at_most(&keepalive), keepalive: keepalive.at_most(&d) },
        None => Wakeup { expire: false, keepalive: true },
    }
}

/// No wake-up is in vain: the sleep lasts until the time of one of its reasons, and each reason
/// whose time it is counts.
pub proof fn law_wakeup_has_reason(quic: Option<Duration>, keepalive: Duration)
    ensures
        wakeup_for(quic, keepalive).expire || wakeup_for(quic, keepalive).keepalive,
        wakeup_for(quic, keepalive).keepalive <==> sleep_length(quic, keepalive)@ == keepalive@,
        wakeup_for(quic, keepalive).expire <==> (quic matches Some(d) && sleep_length(
            quic,
            keepalive,
        )@ == d@),
{
}

/// Where a packet that is being sent came from.
#[derive(Debug, Clone, Copy, PartialEq, Eq, Structural)]
pub enum Source {
    /// It waited for the session.
    Pending,
    /// The device gave it.
    Device,
}

/// Where a session stands: what it was last told to do.
#[derive(Debug, Clone, Copy, PartialEq, Eq, Structural)]
pub enum ForwardPhase {
    /// A packet is prepared for sending.
    Preparing(Source),
    /// A datagram is handed to the transport.
    Handing(Source),
    /// A reply to the sender of a packet is composed.
    Composing,
    /// That reply is written to the device.
    WritingReply,
    /// The socket, the device and the timers are waited for.
    Waiting,
    /// Datagrams are handed to the transport.
    Delivering,
    /// The transport is woken up.
    Waking,
    /// The user is shown how the session is doing.
    Reporting,
    /// HTTP/3 is asked for an event.
    Polling,
    /// The transport is asked for a datagram.
    Receiving,
    /// A packet that arrived is looked at.
    Examining,
    /// A full batch is written to the device.
    WritingFull,
    /// The last batch is written to the device.
    WritingLast,
    /// The transport's packets are sent.
    Flushing,
    /// The transport is asked whether the connection is closed.
    Checking,
    /// The session is over.
    Over,
}

/// What happened.
#[derive(Debug)]
pub enum ForwardEvent {
    /// The packet as it was prepared for sending, where it could be.
    Prepared(Option<Vec<u8>>),
    /// The datagram was handed to the transport.
    Handed(DatagramOutcome),
    /// The reply to the sender, where one could be composed.
    Composed(Option<Vec<u8>>),
    /// The packets were written to the device.
    Written,
    /// They were not.
    WriteFailed(String),
    /// This many datagrams arrived.
    UdpBatch(usize),
    /// The socket could not receive.
    UdpFailed(String),
    /// The device gave these packets; none means that it is closed.
    Batch(VecDeque<Vec<u8>>),
    /// The device could not be read.
    BatchFailed(String),
    /// The sleep is over, which began when the transport's timer stood like this.
    TimerFired { quic: Option<Duration> },
    /// A second has passed; how long the session has lasted, and the transport's counts of packets
    /// lost and sent again.
    StatsTick { elapsed: Duration, lost: usize, retrans: usize },
    /// The transport has the datagrams, whatever it made of them.
    Delivered,
    /// The transport is awake.
    Woken,
    /// The transport could not be made to send a keepalive.
    KeepaliveFailed(String),
    /// The user was shown the line.
    Reported,
    /// What HTTP/3 reported.
    H3(H3Report),
    /// The transport had a datagram.
    Datagram(Vec<u8>),
    /// The transport has no datagram.
    NoDatagram,
    /// The transport failed to give a datagram.
    DatagramFailed,
    /// The packet was looked at; whether it may be taken in.
    Examined(bool),
    /// The transport's packets were sent.
    Flushed,
    /// They were not.
    FlushFailed(BurstError),
    /// Whether the connection is closed.
    Closed(bool),
}

/// What to do next.
#[derive(Debug)]
pub enum ForwardAction {
    /// Prepare this packet for sending.
    Prepare(Vec<u8>),
    /// Hand this datagram to the transport.
    Hand(Vec<u8>),
    /// Compose a reply that tells the sender of this packet that it is too large.
    ComposeTooLarge { packet: Vec<u8>, mtu: u32 },
    /// Write these packets to the device, each behind an empty header.
    Write(Vec<Vec<u8>>),
    /// Wait for a datagram, for packets of the device and for the timers, in this order of
    /// preference.
    Wait,
    /// Hand this many datagrams to the transport.
    DeliverBatch(usize),
    /// Wake the transport up.
    Wake(Wakeup),
    /// Show the user this line.
    Report(String),
    /// Ask HTTP/3 for an event.
    PollH3,
    /// Ask the transport for a datagram.
    Receive,
    /// Look at this packet.
    Examine(Vec<u8>),
    /// Send the transport's packets.
    Flush,
    /// Ask the transport whether the connection is closed.
    CheckClosed,
    /// The session ended.
    Finish,
    /// The session failed.
    Fail(TunnelError),
}

/// A session that is up.
pub struct TunnelSession {
    pub flow_id: u64,
    pub flow_prefix: Vec<u8>,
    pub keepalive: Duration,
    pub stats: TunnelStats,
    pub phase: ForwardPhase,
    /// The packets that are still to be sent before anything else is waited for.
    pub outgoing: VecDeque<Vec<u8>>,
    /// The packet that is being sent.
    pub current: Vec<u8>,
    /// The packet that is being looked at, while one is.
    pub examined: Vec<u8>,
    /// The packets that arrived and are not yet written to the device, each behind its header.
    pub staged: Vec<Vec<u8>>,
}

impl TunnelSession {
    /// A batch is written as soon as it is full, and the prefix is that of the flow.
    pub open spec fn wf(self) -> bool {
        &&& self.staged@.len() < TUN_BATCH_SIZE
        &&& self.flow_id < VARINT_LIMIT
        &&& self.flow_prefix@ == flow_prefix(self.flow_id as nat)
    }

    /// The event answers what was last asked for.
    pub open spec fn expects(self, event: ForwardEvent) -> bool {
        match self.phase {
            ForwardPhase::Preparing(_) => event is Prepared,
            ForwardPhase::Handing(_) => event is Handed,
            ForwardPhase::Composing => event is Composed,
            ForwardPhase::WritingReply => event is Written || event is WriteFailed,
            ForwardPhase::Waiting => event is UdpBatch || event is UdpFailed || event is Batch
                || event is BatchFailed || event is TimerFired || event is StatsTick,
            ForwardPhase::Delivering => event is Delivered,
            ForwardPhase::Waking => event is Woken || event is KeepaliveFailed,
            ForwardPhase::Reporting => event is Reported,
            ForwardPhase::Polling => event is H3,
            ForwardPhase::Receiving => event is Datagram || event is NoDatagram || event
                is DatagramFailed,
            ForwardPhase::Examining => event is Examined,
            ForwardPhase::WritingFull => event is Written || event is WriteFailed,
            ForwardPhase::WritingLast => event is Written || event is WriteFailed,
            ForwardPhase::Flushing => event is Flushed || event is FlushFailed,
            ForwardPhase::Checking => event is Closed,
            ForwardPhase::Over => false,
        }
    }

    /// How many bytes the event may add to a counter.
    pub open spec fn at_stake(self, event: ForwardEvent) -> int {
        match event {
            ForwardEvent::Handed(_) => self.current@.len() as int,
            ForwardEvent::Examined(_) => self.examined@.len() as int,
            _ => 0,
        }
    }

    /// Whether there is room in the counters for what the event may add to them.
    pub fn has_room_for(&self, event: &ForwardEvent) -> (r: bool)
        ensures
            r == self.stats.room(self.at_stake(*event)),
    {
        match event {
            ForwardEvent::Handed(_) => self.stats.has_room(self.current.len()),
            ForwardEvent::Examined(_) => self.stats.has_room(self.examined.len()),
            _ => self.stats.has_room(0),
        }
    }

    /// Only the phase changes, to `phase`.
    pub open spec fn moved(self, phase: ForwardPhase, after: TunnelSession) -> bool {
        after == (TunnelSession { phase, ..self })
    }

    /// The session fails.
    pub open spec fn failed(
        self,
        error: TunnelError,
        after: TunnelSession,
        action: ForwardAction,
    ) -> bool {
        self.moved(ForwardPhase::Over, after) && action == ForwardAction::Fail(error)
    }

    /// The next packet is sent; after the last one, the session goes on.
    pub open spec fn sends_next(
        self,
        source: Source,
        after: TunnelSession,
        action: ForwardAction,
    ) -> bool {
        if self.outgoing@.len() > 0 {
            &&& after == (TunnelSession {
                phase: ForwardPhase::Preparing(source),
                outgoing: after.outgoing,
                ..self
            })
            &&& after.outgoing@ == self.outgoing@.drop_first()
            &&& action == ForwardAction::Prepare(self.outgoing@[0])
        } else if source == Source::Pending {
            self.moved(ForwardPhase::Waiting, after) && action is Wait
        } else {
            self.moved(ForwardPhase::Polling, after) && action is PollH3
        }
    }

    /// The counters after a datagram was handed to the transport. Packets that waited for the
    /// session are not counted as dropped.
    pub open spec fn stats_handed(self, source: Source, outcome: DatagramOutcome) -> TunnelStats {
        match outcome {
            DatagramOutcome::Sent => self.stats.sent(self.current@.len() as int),
            DatagramOutcome::InvalidState => self.stats,
            _ => if source == Source::Device {
                self.stats.lost()
            } else {
                self.stats
            },
        }
    }

    /// How sending the packets goes on.
    pub open spec fn outgoing_follows(
        self,
        event: ForwardEvent,
        after: TunnelSession,
        action: ForwardAction,
    ) -> bool {
        match (self.phase, event) {
            (ForwardPhase::Preparing(source), ForwardEvent::Prepared(Some(packet))) => {
                &&& after == (TunnelSession {
                    phase: ForwardPhase::Handing(source),
                    current: packet,
                    ..self
                })
                &&& action matches ForwardAction::Hand(dgram)
                &&& dgram@ == self.flow_prefix@ + packet@
            },
            (ForwardPhase::Preparing(source), ForwardEvent::Prepared(None)) => (TunnelSession {
                stats: if source == Source::Device {
                    self.stats.lost()
                } else {
                    self.stats
                },
                ..self
            }).sends_next(source, after, action),
            (ForwardPhase::Handing(source), ForwardEvent::Handed(outcome)) => {
                let counted = TunnelSession { stats: self.stats_handed(source, outcome), ..self };
                if source == Source::Device && outcome is Failed {
                    &&& counted.moved(ForwardPhase::Composing, after)
                    &&& action matches ForwardAction::ComposeTooLarge { packet, mtu }
                    &&& packet@ == self.current@
                    &&& mtu == REPLY_MTU
                } else {
                    counted.sends_next(source, after, action)
                }
            },
            (ForwardPhase::Composing, ForwardEvent::Composed(Some(reply))) => {
                &&& self.moved(ForwardPhase::WritingReply, after)
                &&& action matches ForwardAction::Write(batch)
                &&& batch@.len() == 1
                &&& batch@[0]@ == staged_packet(reply@)
            },
            (ForwardPhase::Composing, ForwardEvent::Composed(None)) => self.sends_next(
                Source::Device,
                after,
                action,
            ),
            (ForwardPhase::WritingReply, ForwardEvent::Written) => self.sends_next(
                Source::Device,
                after,
                action,
            ),
            (ForwardPhase::WritingReply, ForwardEvent::WriteFailed(text)) => self.failed(
                TunnelError::Write(text),
                after,
                action,
            ),
            _ => false,
        }
    }

    /// How waiting goes on.
    pub open spec fn waiting_follows(
        self,
        event: ForwardEvent,
        after: TunnelSession,
        action: ForwardAction,
    ) -> bool {
        match event {
            ForwardEvent::UdpBatch(count) => self.moved(ForwardPhase::Delivering, after) && action
                == ForwardAction::DeliverBatch(count),
            ForwardEvent::UdpFailed(text) => self.failed(TunnelError::Udp(text), after, action),
            ForwardEvent::Batch(packets) => if packets@.len() == 0 {
                self.failed(TunnelError::DeviceClosed, after, action)
            } else {
                (TunnelSession { outgoing: packets, ..self }).sends_next(
                    Source::Device,
                    after,
                    action,
                )
            },
            ForwardEvent::BatchFailed(text) => self.failed(TunnelError::Read(text), after, action),
            ForwardEvent::TimerFired { quic } => self.moved(ForwardPhase::Waking, after) && action
                == ForwardAction::Wake(wakeup_for(quic, self.keepalive)),
            ForwardEvent::StatsTick { elapsed, lost, retrans } => {
                &&& self.moved(ForwardPhase::Reporting, after)
                &&& action matches ForwardAction::Report(line)
                &&& line@ == self.stats.line(elapsed, lost as nat, retrans as nat)
            },
            _ => false,
        }
    }

    /// How taking in the packets that arrived goes on.
    pub open spec fn inbound_follows(
        self,
        event: ForwardEvent,
        after: TunnelSession,
        action: ForwardAction,
    ) -> bool {
        match (self.phase, event) {
            (ForwardPhase::Receiving, ForwardEvent::Datagram(dgram)) => match packet_offset(
                dgram@,
                self.flow_id as nat,
            ) {
                Some(offset) => {
                    &&& after == (TunnelSession {
                        phase: ForwardPhase::Examining,
                        examined: after.examined,
                        ..self
                    })
                    &&& after.examined@ == dgram@.skip(offset as int)
                    &&& action matches ForwardAction::Examine(packet)
                    &&& packet@ == after.examined@
                },
                None => after == self && action is Receive,
            },
            (ForwardPhase::Receiving, _) => if self.staged@.len() > 0 {
                &&& after == (TunnelSession {
                    phase: ForwardPhase::WritingLast,
                    staged: after.staged,
                    ..self
                })
                &&& after.staged@.len() == 0
                &&& action matches ForwardAction::Write(batch)
                &&& batch@ == self.staged@
            } else {
                self.moved(ForwardPhase::Flushing, after) && action is Flush
            },
            (ForwardPhase::Examining, ForwardEvent::Examined(valid)) => if !valid {
                self.moved(ForwardPhase::Receiving, after) && action is Receive
            } else {
                let stats = self.stats.received(self.examined@.len() as int);
                if self.staged@.len() + 1 == TUN_BATCH_SIZE {
                    &&& after == (TunnelSession {
                        phase: ForwardPhase::WritingFull,
                        stats,
                        staged: after.staged,
                        ..self
                    })
                    &&& after.staged@.len() == 0
                    &&& action matches ForwardAction::Write(batch)
                    &&& batch@ == self.staged@.push(batch@.last())
                    &&& batch@.last()@ == staged_packet(self.examined@)
                } else {
                    &&& after == (TunnelSession {
                        phase: ForwardPhase::Receiving,
                        stats,
                        staged: after.staged,
                        ..self
                    })
                    &&& after.staged@ == self.staged@.push(after.staged@.last())
                    &&& after.staged@.last()@ == staged_packet(self.examined@)
                    &&& action is Receive
                }
            },
            (ForwardPhase::WritingFull, ForwardEvent::Written) => self.moved(
                ForwardPhase::Receiving,
                after,
            ) && action is Receive,
            (ForwardPhase::WritingLast, ForwardEvent::Written) => self.moved(
                ForwardPhase::Flushing,
                after,
            ) && action is Flush,
            (_, ForwardEvent::WriteFailed(text)) => self.failed(
                TunnelError::Write(text),
                after,
                action,
            ),
            _ => false,
        }
    }

    /// How the session goes on after an event that it expects.
    pub open spec fn follows(
        self,
        event: ForwardEvent,
        after: TunnelSession,
        action: ForwardAction,
    ) -> bool {
        match self.phase {
            ForwardPhase::Preparing(_) => self.outgoing_follows(event, after, action),
            ForwardPhase::Handing(_) => self.outgoing_follows(event, after, action),
            ForwardPhase::Composing => self.outgoing_follows(event, after, action),
            ForwardPhase::WritingReply => self.outgoing_follows(event, after, action),
            ForwardPhase::Waiting => self.waiting_follows(event, after, action),
            ForwardPhase::Receiving => self.inbound_follows(event, after, action),
            ForwardPhase::Examining => self.inbound_follows(event, after, action),
            ForwardPhase::WritingFull => self.inbound_follows(event, after, action),
            ForwardPhase::WritingLast => self.inbound_follows(event, after, action),
            _ => match event {
                ForwardEvent::KeepaliveFailed(text) => self.failed(
                    TunnelError::Keepalive(text),
                    after,
                    action,
                ),
                ForwardEvent::H3(report) => if report is Event {
                    after == self && action is PollH3
                } else {
                    self.moved(ForwardPhase::Receiving, after) && action is Receive
                },
                ForwardEvent::Flushed => self.moved(ForwardPhase::Checking, after) && action
                    is CheckClosed,
                ForwardEvent::FlushFailed(error) => self.failed(
                    TunnelError::Burst(error),
                    after,
                    action,
                ),
                ForwardEvent::Closed(closed) => if closed {
                    self.moved(ForwardPhase::Over, after) && action is Finish
                } else {
                    self.moved(ForwardPhase::Waiting, after) && action is Wait
                },
                // The datagrams are delivered, the transport is awake or the user was told.
                _ => self.moved(ForwardPhase::Polling, after) && action is PollH3,
            },
        }
    }

    /// A session has just begun, on this flow and with the packets that waited for it, and this is
    /// its first action: those packets are sent first.
    pub open spec fn begun(
        self,
        flow_id: nat,
        keepalive: Duration,
        pending: Seq<Vec<u8>>,
        first: ForwardAction,
    ) -> bool {
        &&& self.wf()
        &&& self.flow_id == flow_id
        &&& self.keepalive == keepalive
        &&& self.stats == (TunnelStats {
            tx_packets: 0,
            rx_packets: 0,
            tx_bytes: 0,
            rx_bytes: 0,
            dropped: 0,
        })
        &&& self.staged@.len() == 0
        &&& if pending.len() > 0 {
            &&& self.phase == ForwardPhase::Preparing(Source::Pending)
            &&& self.outgoing@ == pending.drop_first()
            &&& first == ForwardAction::Prepare(pending[0])
        } else {
            &&& self.phase == ForwardPhase::Waiting
            &&& self.outgoing@.len() == 0
            &&& first is Wait
        }
    }

    /// The session that a set-up has brought up, and its first action. It takes the packets that
    /// waited for it.
    pub fn new(setup: &SessionSetup, keepalive: Duration, pending: VecDeque<Vec<u8>>) -> (r: (
        TunnelSession,
        ForwardAction,
    ))
        requires
            setup.phase is Ready,
        ensures
            r.0.begun(setup.flow(), keepalive, pending@, r.1),
    {
        let flow_id: u64 = setup.flow_id();
        let mut session = TunnelSession {
            flow_id,
            flow_prefix: build_flow_prefix(flow_id),
            keepalive,
            stats: TunnelStats {
                tx_packets: 0,
                rx_packets: 0,
                tx_bytes: 0,
                rx_bytes: 0,
                dropped: 0,
            },
            phase: ForwardPhase::Waiting,
            outgoing: pending,
            current: Vec::new(),
            examined: Vec::new(),
            staged: Vec::new(),
        };
        let action = session.send_next(Source::Pending);
        (session, action)
    }

    /// How long the session may sleep.
    pub fn sleep(&self, quic: Option<Duration>) -> (r: Duration)
        ensures
            r == sleep_length(quic, self.keepalive),
            r@ <= self.keepalive@,
            quic matches Some(d) ==> r@ <= d@,
    {
        sleep_at_most(quic, self.keepalive)
    }

    fn go(&mut self, phase: ForwardPhase, action: ForwardAction) -> (r: ForwardAction)
        ensures
            old(self).moved(phase, *final(self)),
            r == action,
    {
        self.phase = phase;
        action
    }

    fn fail(&mut self, error: TunnelError) -> (r: ForwardAction)
        ensures
            old(self).failed(error, *final(self), r),
    {
        self.phase = ForwardPhase::Over;
        ForwardAction::Fail(error)
    }

    fn send_next(&mut self, source: Source) -> (r: ForwardAction)
        ensures
            old(self).sends_next(source, *final(self), r),
    {
        if self.outgoing.len() > 0 {
            match self.outgoing.pop_front() {
                Some(packet) => {
                    self.phase = ForwardPhase::Preparing(source);
                    return ForwardAction::Prepare(packet);
                },
                None => {},
            }
        }
        match source {
            Source::Pending => self.go(ForwardPhase::Waiting, ForwardAction::Wait),
            Source::Device => self.go(ForwardPhase::Polling, ForwardAction::PollH3),
        }
    }

    /// Sends the packets that wait or that the device gave, one after the other. The sender of a
    /// packet of the device that the transport cannot take is told that it is too large.
    pub fn send_outgoing(&mut self, event: ForwardEvent) -> (r: ForwardAction)
        requires
            old(self).wf(),
            old(self).phase is Preparing || old(self).phase is Handing || old(self).phase
                is Composing || old(self).phase is WritingReply,
            old(self).expects(event),
            old(self).stats.room(old(self).at_stake(event)),
        ensures
            final(self).wf(),
            old(self).outgoing_follows(event, *final(self), r),
    {
        match (self.phase, event) {
            (ForwardPhase::Preparing(source), ForwardEvent::Prepared(prepared)) => {
                let datagram = match &prepared {
                    Some(packet) => build_flow_datagram(
                        self.flow_prefix.as_slice(),
                        Some(packet.as_slice()),
                    ),
                    None => None,
                };
                match (prepared, datagram) {
                    (Some(packet), Some(dgram)) => {
                        self.current = packet;
                        self.go(ForwardPhase::Handing(source), ForwardAction::Hand(dgram))
                    },
                    _ => {
                        if source == Source::Device {
                            self.stats.dropped = self.stats.dropped + 1;
                        }
                        self.send_next(source)
                    },
                }
            },
            (ForwardPhase::Handing(source), ForwardEvent::Handed(outcome)) => {
                match outcome {
                    DatagramOutcome::Sent => {
                        self.stats.tx_packets = self.stats.tx_packets + 1;
                        self.stats.tx_bytes = self.stats.tx_bytes + self.current.len() as u64;
                    },
                    DatagramOutcome::InvalidState => {},
                    DatagramOutcome::Done => {
                        if source == Source::Device {
                            self.stats.dropped = self.stats.dropped + 1;
                        }
                    },
                    DatagramOutcome::Failed(_) => {
                        if source == Source::Device {
                            self.stats.dropped = self.stats.dropped + 1;
                            let packet = slice_to_vec(self.current.as_slice());
                            return self.go(
                                ForwardPhase::Composing,
                                ForwardAction::ComposeTooLarge { packet, mtu: REPLY_MTU },
                            );
                        }
                    },
                }
                self.send_next(source)
            },
            (ForwardPhase::Composing, ForwardEvent::Composed(Some(reply))) => {
                let mut buf: Vec<u8> = Vec::new();
                stage_tun_packet(&mut buf, reply.as_slice());
                let mut batch: Vec<Vec<u8>> = Vec::new();
                batch.push(buf);
                self.go(ForwardPhase::WritingReply, ForwardAction::Write(batch))
            },
            (_, ForwardEvent::WriteFailed(text)) => self.fail(TunnelError::Write(text)),
            _ => self.send_next(Source::Device),
        }
    }

    /// Takes in what the session was woken by.
    pub fn wake_up(&mut self, event: ForwardEvent) -> (r: ForwardAction)
        requires
            old(self).wf(),
            old(self).phase is Waiting,
            old(self).expects(event),
        ensures
            final(self).wf(),
            old(self).waiting_follows(event, *final(self), r),
    {
        match event {
            ForwardEvent::UdpBatch(count) => self.go(
                ForwardPhase::Delivering,
                ForwardAction::DeliverBatch(count),
            ),
            ForwardEvent::UdpFailed(text) => self.fail(TunnelError::Udp(text)),
            ForwardEvent::Batch(packets) => {
                if packets.len() == 0 {
                    return self.fail(TunnelError::DeviceClosed);
                }
                self.outgoing = packets;
                self.send_next(Source::Device)
            },
            ForwardEvent::BatchFailed(text) => self.fail(TunnelError::Read(text)),
            ForwardEvent::TimerFired { quic } => {
                let reasons = wakeup(quic, self.keepalive);
                self.go(ForwardPhase::Waking, ForwardAction::Wake(reasons))
            },
            ForwardEvent::StatsTick { elapsed, lost, retrans } => {
                let line = self.stats.status_line(elapsed, lost, retrans);
                self.go(ForwardPhase::Reporting, ForwardAction::Report(line))
            },
            _ => ForwardAction::Wait,
        }
    }

    fn take_staged(&mut self) -> (r: Vec<Vec<u8>>)
        ensures
            r@ == old(self).staged@,
            final(self).staged@.len() == 0,
            *final(self) == (TunnelSession { staged: final(self).staged, ..*old(self) }),
    {
        let mut batch: Vec<Vec<u8>> = Vec::new();
        std::mem::swap(&mut batch, &mut self.staged);
        batch
    }

    /// Takes in the packets that arrived and writes them to the device: whenever a batch is full,
    /// and at the end what is left.
    pub fn take_in(&mut self, event: ForwardEvent) -> (r: ForwardAction)
        requires
            old(self).wf(),
            old(self).phase is Receiving || old(self).phase is Examining || old(self).phase
                is WritingFull || old(self).phase is WritingLast,
            old(self).expects(event),
            old(self).stats.room(old(self).at_stake(event)),
        ensures
            final(self).wf(),
            old(self).inbound_follows(event, *final(self), r),
    {
        match (self.phase, event) {
            (ForwardPhase::Receiving, ForwardEvent::Datagram(dgram)) => {
                let packet = match parse_datagram(dgram.as_slice(), self.flow_id) {
                    Some(packet) => slice_to_vec(packet),
                    None => {
                        return ForwardAction::Receive;
                    },
                };
                self.examined = slice_to_vec(packet.as_slice());
                self.go(ForwardPhase::Examining, ForwardAction::Examine(packet))
            },
            (ForwardPhase::Receiving, _) => {
                if self.staged.len() > 0 {
                    let batch = self.take_staged();
                    self.go(ForwardPhase::WritingLast, ForwardAction::Write(batch))
                } else {
                    self.go(ForwardPhase::Flushing, ForwardAction::Flush)
                }
            },
            (ForwardPhase::Examining, ForwardEvent::Examined(valid)) => {
                if !valid {
                    return self.go(ForwardPhase::Receiving, ForwardAction::Receive);
                }
                self.stats.rx_packets = self.stats.rx_packets + 1;
                self.stats.rx_bytes = self.stats.rx_bytes + self.examined.len() as u64;
                let mut buf: Vec<u8> = Vec::new();
                stage_tun_packet(&mut buf, self.examined.as_slice());
                if self.staged.len() + 1 < ideal_batch_size() {
                    self.staged.push(buf);
                    return self.go(ForwardPhase::Receiving, ForwardAction::Receive);
                }
                let mut batch = self.take_staged();
                batch.push(buf);
                self.go(ForwardPhase::WritingFull, ForwardAction::Write(batch))
            },
            (_, ForwardEvent::WriteFailed(text)) => self.fail(TunnelError::Write(text)),
            (ForwardPhase::WritingFull, _) => self.go(
                ForwardPhase::Receiving,
                ForwardAction::Receive,
            ),
            _ => self.go(ForwardPhase::Flushing, ForwardAction::Flush),
        }
    }

    /// Takes in what happened and says what to do next.
    pub fn step(&mut self, event: ForwardEvent) -> (r: ForwardAction)
        requires
            old(self).wf(),
            old(self).expects(event),
            old(self).stats.room(old(self).at_stake(event)),
        ensures
            final(self).wf(),
            old(self).follows(event, *final(self), r),
    {
        match self.phase {
            ForwardPhase::Preparing(_) => self.send_outgoing(event),
            ForwardPhase::Handing(_) => self.send_outgoing(event),
            ForwardPhase::Composing => self.send_outgoing(event),
            ForwardPhase::WritingReply => self.send_outgoing(event),
            ForwardPhase::Waiting => self.wake_up(event),
            ForwardPhase::Receiving => self.take_in(event),
            ForwardPhase::Examining => self.take_in(event),
            ForwardPhase::WritingFull => self.take_in(event),
            ForwardPhase::WritingLast => self.take_in(event),
            _ => match event {
                ForwardEvent::KeepaliveFailed(text) => self.fail(TunnelError::Keepalive(text)),
                ForwardEvent::H3(report) => match report {
                    H3Report::Event => ForwardAction::PollH3,
                    _ => self.go(ForwardPhase::Receiving, ForwardAction::Receive),
                },
                ForwardEvent::Flushed => self.go(
                    ForwardPhase::Checking,
                    ForwardAction::CheckClosed,
                ),
                ForwardEvent::FlushFailed(error) => self.fail(TunnelError::Burst(error)),
                ForwardEvent::Closed(closed) => if closed {
                    self.go(ForwardPhase::Over, ForwardAction::Finish)
                } else {
                    self.go(ForwardPhase::Waiting, ForwardAction::Wait)
                },
                _ => self.go(ForwardPhase::Polling, ForwardAction::PollH3),
            },
        }
    }
}

} // verus!
