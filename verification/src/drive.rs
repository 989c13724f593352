//! Driving a packet stream: one pass over each outside resource, and the rounds that string the
//! passes together until nothing moves any more.
use crate::datagram::{build_flow_datagram, packet_offset, parse_datagram_offset};
use crate::net::NamedAddress;
use crate::packet_session::{
    DrivePoll, MasquePacketStream, PassPoll, PendingUdpSend, StreamError, DEFAULT_QUEUE_CAPACITY,
};
use vstd::prelude::*;
use vstd::slice::{slice_subrange, slice_to_vec};

verus! {

/// The flow whose packets a stream takes in.
pub const INBOUND_FLOW_ID: u64 = 0;

/// How handing a datagram to the transport ended.
#[derive(Debug)]
pub enum DatagramOutcome {
    Sent,
    /// The peer takes no datagrams.
    InvalidState,
    /// The transport's own queue is full.
    Done,
    Failed(String),
}

/// What happened in a pass over the outgoing queue.
#[derive(Debug)]
pub enum QueueEvent {
    Begin,
    /// The packet as it was prepared for sending, where it could be.
    Prepared(Option<Vec<u8>>),
    /// The datagram was handed to the transport.
    Handed(DatagramOutcome),
}

/// What to do in a pass over the outgoing queue.
#[derive(Debug)]
pub enum QueueStep {
    /// Prepare this packet for sending.
    Prepare(Vec<u8>),
    /// Hand this datagram to the transport.
    Hand(Vec<u8>),
    /// The pass is over; whether a packet left the queue.
    Return(bool),
}

/// What happened while the transport's packets are being sent.
#[derive(Debug)]
pub enum SendEvent {
    Begin,
    /// The socket can send.
    Writable,
    /// The socket cannot send now.
    NotWritable,
    /// The socket failed while it was waited for.
    WritableFailed(String),
    /// The transport made a packet.
    Packet { len: usize, to: NamedAddress },
    /// The transport has nothing to send.
    NothingToSend,
    /// The transport could not make a packet.
    QuicFailed(String),
    /// The socket took this many bytes.
    Sent(usize),
    /// The socket would have blocked.
    WouldBlock,
    /// The socket failed to send.
    SendFailed(String),
}

/// What to do to send the transport's packets.
#[derive(Debug)]
pub enum SendStep {
    /// Ask whether the socket can send.
    PollWritable,
    /// Ask the transport for a packet, and set the timer anew if it makes one.
    MakePacket,
    /// Send the packet of this length.
    TrySend(usize),
    /// The pass is over.
    Return(PassPoll),
}

/// What happened while datagrams are being received.
#[derive(Debug)]
pub enum ReceiveEvent {
    Begin,
    /// The socket has something.
    Readable,
    /// The socket has nothing.
    NotReadable,
    /// The socket failed while it was waited for.
    ReadableFailed(String),
    /// A datagram of this length arrived.
    Received(usize),
    /// The transport has the datagram, whatever it made of it, and the timer is set anew.
    Delivered,
    /// The socket would have blocked.
    WouldBlock,
    /// The socket failed to receive.
    ReceiveFailed(String),
}

/// What to do to receive datagrams.
#[derive(Debug)]
pub enum ReceiveStep {
    /// Ask whether the socket has something.
    PollReadable,
    /// Receive a datagram.
    TryReceive,
    /// Hand the datagram of this length to the transport, and set the timer anew.
    Deliver(usize),
    /// The pass is over.
    Return(PassPoll),
}

/// What HTTP/3 reported.
#[derive(Debug)]
pub enum H3Report {
    /// Something. It does not matter what.
    Event,
    /// Nothing.
    Done,
    Failed(String),
}

/// What to do about HTTP/3.
#[derive(Debug)]
pub enum H3Step {
    /// Ask HTTP/3 for an event.
    Poll,
    /// The pass is over; whether there was an event.
    Return(Result<bool, StreamError>),
}

/// What happened while the transport's datagrams are being taken in.
#[derive(Debug)]
pub enum InboundEvent {
    Begin,
    /// The transport had a datagram.
    Datagram(Vec<u8>),
    /// The packet was looked at; whether it may be taken in.
    Examined(bool),
    /// The transport has no datagram.
    Done,
    /// The transport failed to give a datagram.
    Failed,
}

/// What to do to take in the transport's datagrams.
#[derive(Debug)]
pub enum InboundStep {
    /// Ask the transport for a datagram.
    Receive,
    /// Look at this packet.
    Examine(Vec<u8>),
    /// The pass is over; whether there was a datagram.
    Return(bool),
}

/// A pass that cannot go on: over if it did something, else pending.
pub open spec fn paused(did_something: bool) -> PassPoll {
    if did_something {
        PassPoll::Ready(true)
    } else {
        PassPoll::Pending
    }
}

fn pause(did_something: bool) -> (r: PassPoll)
    ensures
        r == paused(did_something),
{
    if did_something {
        PassPoll::Ready(true)
    } else {
        PassPoll::Pending
    }
}

impl MasquePacketStream {
    /// Takes the first packet off the outgoing queue.
    pub open spec fn settled(self, after: MasquePacketStream) -> bool {
        &&& after == (MasquePacketStream { outbound_queue: after.outbound_queue, ..self })
        &&& after.outbound_queue@ == self.outbound_queue@.drop_first()
    }

    /// The pass over the outgoing queue goes on with the packet that is now the first.
    pub open spec fn queue_continues(self, progressed: bool, step: QueueStep) -> bool {
        if self.outbound_queue@.len() == 0 {
            step == QueueStep::Return(progressed)
        } else {
            step matches QueueStep::Prepare(packet) && packet@ == self.outbound_queue@[0]@
        }
    }

    /// The event fits the state: a packet that was prepared or handed over is still in the queue.
    pub open spec fn queue_expects(self, event: QueueEvent) -> bool {
        event is Begin || self.outbound_queue@.len() > 0
    }

    /// How a pass over the outgoing queue goes on.
    pub open spec fn queue_follows(
        self,
        progressed: bool,
        event: QueueEvent,
        after: MasquePacketStream,
        progressed_after: bool,
        step: QueueStep,
    ) -> bool {
        match event {
            QueueEvent::Begin => {
                &&& after == self && progressed_after == progressed
                &&& self.queue_continues(progressed, step)
            },
            QueueEvent::Prepared(Some(packet)) => {
                &&& after == self && progressed_after == progressed
                &&& step matches QueueStep::Hand(dgram)
                &&& dgram@ == self.flow_prefix@ + packet@
            },
            QueueEvent::Handed(DatagramOutcome::Done) => {
                &&& after == self && progressed_after == progressed
                &&& step == QueueStep::Return(progressed)
            },
            // The packet is done with: sent, or not to be sent at all.
            _ => {
                &&& self.settled(after) && progressed_after
                &&& after.queue_continues(true, step)
            },
        }
    }

    fn take_front(&self, progressed: bool) -> (r: QueueStep)
        ensures
            self.queue_continues(progressed, r),
    {
        if self.outbound_queue.len() == 0 {
            QueueStep::Return(progressed)
        } else {
            QueueStep::Prepare(slice_to_vec(self.outbound_queue[0].as_slice()))
        }
    }

    /// Hands the packets of the outgoing queue to the transport, the first one first, until the
    /// queue is empty or the transport takes no more. `progressed` is whether a packet has left
    /// the queue in this pass.
    pub fn flush_pending_queue(&mut self, progressed: &mut bool, event: QueueEvent) -> (r:
        QueueStep)
        requires
            old(self).wf(),
            old(self).queue_expects(event),
        ensures
            final(self).wf(),
            old(self).queue_follows(*old(progressed), event, *final(self), *final(progressed), r),
    {
        match event {
            QueueEvent::Begin => self.take_front(*progressed),
            QueueEvent::Handed(DatagramOutcome::Done) => QueueStep::Return(*progressed),
            QueueEvent::Prepared(prepared) => {
                let datagram = match &prepared {
                    Some(packet) => build_flow_datagram(
                        self.flow_prefix.as_slice(),
                        Some(packet.as_slice()),
                    ),
                    None => None,
                };
                match datagram {
                    Some(dgram) => QueueStep::Hand(dgram),
                    None => {
                        let _ = self.outbound_queue.pop_front();
                        *progressed = true;
                        self.take_front(true)
                    },
                }
            },
            QueueEvent::Handed(_) => {
                let _ = self.outbound_queue.pop_front();
                *progressed = true;
                self.take_front(true)
            },
        }
    }

    /// The packet that waits for the socket is sent, unless it is for another address.
    pub open spec fn send_tried(self, step: SendStep) -> bool {
        &&& self.pending_send matches Some(pending)
        &&& if pending.to.addr == self.endpoint.addr {
            step == SendStep::TrySend(pending.len)
        } else {
            &&& step matches SendStep::Return(
                PassPoll::Failed(StreamError::UnexpectedTarget { to, expected }),
            )
            &&& to@ == pending.to.text@
            &&& expected@ == self.endpoint.text@
        }
    }

    /// The event fits the state: there is a packet that waits for the socket exactly when the
    /// socket was asked to send one.
    pub open spec fn send_expects(self, event: SendEvent) -> bool {
        match event {
            SendEvent::Begin => true,
            SendEvent::Sent(_) => self.pending_send is Some,
            SendEvent::WouldBlock => self.pending_send is Some,
            SendEvent::SendFailed(_) => self.pending_send is Some,
            _ => self.pending_send is None,
        }
    }

    /// How sending the transport's packets goes on.
    pub open spec fn send_follows(
        self,
        flushed: bool,
        event: SendEvent,
        after: MasquePacketStream,
        flushed_after: bool,
        step: SendStep,
    ) -> bool {
        match event {
            SendEvent::Begin => {
                &&& after == self && flushed_after == flushed
                &&& if self.pending_send is None {
                    step is PollWritable
                } else {
                    self.send_tried(step)
                }
            },
            SendEvent::Writable => after == self && flushed_after == flushed && step is MakePacket,
            SendEvent::NotWritable => after == self && flushed_after == flushed && step
                == SendStep::Return(paused(flushed)),
            SendEvent::WritableFailed(text) => after == self && flushed_after == flushed && step
                == SendStep::Return(PassPoll::Failed(StreamError::Socket(text))),
            SendEvent::Packet { len, to } => {
                &&& after == (MasquePacketStream {
                    pending_send: Some(PendingUdpSend { len, to }),
                    ..self
                })
                &&& flushed_after == flushed
                &&& after.send_tried(step)
            },
            SendEvent::NothingToSend => after == self && flushed_after == flushed && step
                == SendStep::Return(PassPoll::Ready(flushed)),
            SendEvent::QuicFailed(text) => after == self && flushed_after == flushed && step
                == SendStep::Return(PassPoll::Failed(StreamError::Quic(text))),
            SendEvent::Sent(sent) => if self.pending_send matches Some(pending) && sent
                == pending.len {
                &&& after == (MasquePacketStream { pending_send: None, ..self })
                &&& flushed_after
                &&& step is PollWritable
            } else {
                &&& after == self && flushed_after == flushed
                &&& step == SendStep::Return(PassPoll::Failed(StreamError::PartialSend))
            },
            SendEvent::WouldBlock => after == self && flushed_after == flushed && step
                == SendStep::Return(paused(flushed)),
            SendEvent::SendFailed(text) => after == self && flushed_after == flushed && step
                == SendStep::Return(PassPoll::Failed(StreamError::Socket(text))),
        }
    }

    fn try_pending(&self, pending: &PendingUdpSend) -> (r: SendStep)
        requires
            self.pending_send == Some(*pending),
        ensures
            self.send_tried(r),
    {
        if pending.to.addr == self.endpoint.addr {
            SendStep::TrySend(pending.len)
        } else {
            SendStep::Return(
                PassPoll::Failed(
                    StreamError::UnexpectedTarget {
                        to: pending.to.text.clone(),
                        expected: self.endpoint.text.clone(),
                    },
                ),
            )
        }
    }

    /// Sends the transport's packets, one after the other, until there is none or the socket takes
    /// no more. A packet that the socket did not take waits for the next pass. `flushed` is
    /// whether a packet was sent in this pass.
    pub fn poll_flush_conn_send(&mut self, flushed: &mut bool, event: SendEvent) -> (r: SendStep)
        requires
            old(self).wf(),
            old(self).send_expects(event),
        ensures
            final(self).wf(),
            old(self).send_follows(*old(flushed), event, *final(self), *final(flushed), r),
    {
        match event {
            SendEvent::Begin => match &self.pending_send {
                None => SendStep::PollWritable,
                Some(pending) => self.try_pending(pending),
            },
            SendEvent::Writable => SendStep::MakePacket,
            SendEvent::NotWritable => SendStep::Return(pause(*flushed)),
            SendEvent::WritableFailed(text) => SendStep::Return(
                PassPoll::Failed(StreamError::Socket(text)),
            ),
            SendEvent::Packet { len, to } => {
                self.pending_send = Some(PendingUdpSend { len, to });
                match &self.pending_send {
                    None => SendStep::PollWritable,
                    Some(pending) => self.try_pending(pending),
                }
            },
            SendEvent::NothingToSend => SendStep::Return(PassPoll::Ready(*flushed)),
            SendEvent::QuicFailed(text) => SendStep::Return(
                PassPoll::Failed(StreamError::Quic(text)),
            ),
            SendEvent::Sent(sent) => {
                let whole = match &self.pending_send {
                    Some(pending) => sent == pending.len,
                    None => false,
                };
                if whole {
                    self.pending_send = None;
                    *flushed = true;
                    SendStep::PollWritable
                } else {
                    SendStep::Return(PassPoll::Failed(StreamError::PartialSend))
                }
            },
            SendEvent::WouldBlock => SendStep::Return(pause(*flushed)),
            SendEvent::SendFailed(text) => SendStep::Return(
                PassPoll::Failed(StreamError::Socket(text)),
            ),
        }
    }

    /// Taking in the transport's datagrams goes on while there is room for a packet.
    pub open spec fn inbound_continues(self, progressed: bool, step: InboundStep) -> bool {
        if self.inbound_queue@.len() >= DEFAULT_QUEUE_CAPACITY {
            step == InboundStep::Return(progressed)
        } else {
            step is Receive
        }
    }

    /// The event fits the state: there was room for the packet when its datagram was asked for, and
    /// a packet is looked at exactly when it was asked to be.
    pub open spec fn inbound_expects(self, event: InboundEvent) -> bool {
        &&& event is Begin || self.inbound_queue@.len() < DEFAULT_QUEUE_CAPACITY
        &&& event is Examined <==> self.examining is Some
    }

    /// How taking in the transport's datagrams goes on.
    pub open spec fn inbound_follows(
        self,
        progressed: bool,
        event: InboundEvent,
        after: MasquePacketStream,
        progressed_after: bool,
        step: InboundStep,
    ) -> bool {
        match event {
            InboundEvent::Begin => {
                &&& after == self && progressed_after == progressed
                &&& self.inbound_continues(progressed, step)
            },
            InboundEvent::Datagram(dgram) => {
                &&& progressed_after
                &&& match packet_offset(dgram@, INBOUND_FLOW_ID as nat) {
                    Some(offset) => {
                        &&& after == (MasquePacketStream { examining: after.examining, ..self })
                        &&& after.examining matches Some(kept)
                        &&& kept@ == dgram@.skip(offset as int)
                        &&& step matches InboundStep::Examine(packet)
                        &&& packet@ == kept@
                    },
                    None => after == self && self.inbound_continues(true, step),
                }
            },
            InboundEvent::Examined(valid) => {
                &&& progressed_after == progressed
                &&& after == (MasquePacketStream {
                    inbound_queue: after.inbound_queue,
                    examining: None,
                    ..self
                })
                &&& after.inbound_queue@ == if valid && self.examining is Some {
                    self.inbound_queue@.push(self.examining->0)
                } else {
                    self.inbound_queue@
                }
                &&& after.inbound_continues(progressed, step)
            },
            InboundEvent::Done => after == self && progressed_after == progressed && step
                == InboundStep::Return(progressed),
            InboundEvent::Failed => after == self && progressed_after == progressed && step
                == InboundStep::Return(progressed),
        }
    }

    fn ask_inbound(&self, progressed: bool) -> (r: InboundStep)
        ensures
            self.inbound_continues(progressed, r),
    {
        if self.inbound_queue.len() >= DEFAULT_QUEUE_CAPACITY {
            InboundStep::Return(progressed)
        } else {
            InboundStep::Receive
        }
    }

    /// Takes in the transport's datagrams until there is none or the queue is full. A datagram of
    /// another flow, or with a packet that may not be taken in, is dropped. `progressed` is
    /// whether there was a datagram in this pass.
    pub fn poll_incoming_datagrams(&mut self, progressed: &mut bool, event: InboundEvent) -> (r:
        InboundStep)
        requires
            old(self).wf(),
            old(self).inbound_expects(event),
        ensures
            final(self).wf(),
            old(self).inbound_follows(*old(progressed), event, *final(self), *final(progressed), r),
    {
        match event {
            InboundEvent::Begin => self.ask_inbound(*progressed),
            InboundEvent::Datagram(dgram) => {
                *progressed = true;
                match parse_datagram_offset(dgram.as_slice(), INBOUND_FLOW_ID) {
                    Some(offset) => {
                        let packet = slice_subrange(dgram.as_slice(), offset, dgram.len());
                        assert(packet@ =~= dgram@.skip(offset as int));
                        self.examining = Some(slice_to_vec(packet));
                        InboundStep::Examine(slice_to_vec(packet))
                    },
                    None => self.ask_inbound(true),
                }
            },
            InboundEvent::Examined(valid) => {
                match self.examining.take() {
                    Some(packet) => {
                        if valid {
                            self.inbound_queue.push_back(packet);
                        }
                    },
                    None => {},
                }
                self.ask_inbound(*progressed)
            },
            InboundEvent::Done => InboundStep::Return(*progressed),
            InboundEvent::Failed => InboundStep::Return(*progressed),
        }
    }
}

/// How receiving datagrams goes on.
pub open spec fn receive_follows(
    received: bool,
    event: ReceiveEvent,
    received_after: bool,
    step: ReceiveStep,
) -> bool {
    match event {
        ReceiveEvent::Begin => received_after == received && step is PollReadable,
        ReceiveEvent::Readable => received_after == received && step is TryReceive,
        ReceiveEvent::NotReadable => received_after == received && step == ReceiveStep::Return(
            paused(received),
        ),
        ReceiveEvent::ReadableFailed(text) => received_after == received && step
            == ReceiveStep::Return(PassPoll::Failed(StreamError::Socket(text))),
        ReceiveEvent::Received(len) => received_after == received && step == ReceiveStep::Deliver(
            len,
        ),
        ReceiveEvent::Delivered => received_after && step is TryReceive,
        ReceiveEvent::WouldBlock => received_after == received && step is PollReadable,
        ReceiveEvent::ReceiveFailed(text) => received_after == received && step
            == ReceiveStep::Return(PassPoll::Failed(StreamError::Socket(text))),
    }
}

/// Receives datagrams and hands them to the transport until the socket has none left. `received`
/// is whether there was one in this pass.
pub fn poll_recv_udp(received: &mut bool, event: ReceiveEvent) -> (r: ReceiveStep)
    ensures
        receive_follows(*old(received), event, *final(received), r),
{
    match event {
        ReceiveEvent::Begin => ReceiveStep::PollReadable,
        ReceiveEvent::Readable => ReceiveStep::TryReceive,
        ReceiveEvent::NotReadable => ReceiveStep::Return(pause(*received)),
        ReceiveEvent::ReadableFailed(text) => ReceiveStep::Return(
            PassPoll::Failed(StreamError::Socket(text)),
        ),
        ReceiveEvent::Received(len) => ReceiveStep::Deliver(len),
        ReceiveEvent::Delivered => {
            *received = true;
            ReceiveStep::TryReceive
        },
        ReceiveEvent::WouldBlock => ReceiveStep::PollReadable,
        ReceiveEvent::ReceiveFailed(text) => ReceiveStep::Return(
            PassPoll::Failed(StreamError::Socket(text)),
        ),
    }
}

/// How taking what HTTP/3 reports goes on.
pub open spec fn h3_follows(
    progressed: bool,
    report: H3Report,
    progressed_after: bool,
    step: H3Step,
) -> bool {
    match report {
        H3Report::Event => progressed_after && step is Poll,
        H3Report::Done => progressed_after == progressed && step == H3Step::Return(Ok(progressed)),
        H3Report::Failed(text) => progressed_after == progressed && step == H3Step::Return(
            Err(StreamError::H3Poll(text)),
        ),
    }
}

/// Takes what HTTP/3 reports until it reports nothing more. `progressed` is whether it reported
/// something in this pass.
pub fn poll_h3_events(progressed: &mut bool, report: H3Report) -> (r: H3Step)
    ensures
        h3_follows(*old(progressed), report, *final(progressed), r),
{
    match report {
        H3Report::Event => {
            *progressed = true;
            H3Step::Poll
        },
        H3Report::Done => H3Step::Return(Ok(*progressed)),
        H3Report::Failed(text) => H3Step::Return(Err(StreamError::H3Poll(text))),
    }
}

/// Where a round of driving stands: which pass is under way.
#[derive(Debug, Clone, Copy, PartialEq, Eq, Structural)]
pub enum DrivePhase {
    Queue,
    FirstSend,
    Receive,
    H3,
    Inbound,
    Timer,
    SecondSend,
    Check,
}

/// How the pass under way ended.
#[derive(Debug)]
pub enum DriveEvent {
    /// The pass over the outgoing queue.
    Queue(bool),
    /// Sending the transport's packets.
    Send(PassPoll),
    /// Receiving datagrams.
    Receive(PassPoll),
    /// Taking what HTTP/3 reports.
    H3(Result<bool, StreamError>),
    /// Taking in the transport's datagrams.
    Inbound(bool),
    /// The look at the timer; whether it has run out.
    Timer(bool),
    /// The look at the connection; whether it is closed.
    Closed(bool),
}

/// What to do to drive the session.
#[derive(Debug)]
pub enum DriveStep {
    /// Make a pass over the outgoing queue.
    FlushQueue,
    /// Send the transport's packets.
    Send,
    /// Tell the transport that its timer ran out, set the timer anew, then send the transport's
    /// packets.
    ExpireAndSend,
    /// Receive datagrams.
    Receive,
    /// Take what HTTP/3 reports.
    PollH3,
    /// Take in the transport's datagrams.
    TakeIn,
    /// Look at the timer.
    PollTimer,
    /// Look at the connection.
    CheckClosed,
    /// The drive is over.
    Return(DrivePoll),
}

impl DriveEvent {
    /// Something was done.
    pub open spec fn moved(self) -> bool {
        match self {
            DriveEvent::Queue(moved) => moved,
            DriveEvent::Send(PassPoll::Ready(moved)) => moved,
            DriveEvent::Receive(PassPoll::Ready(moved)) => moved,
            DriveEvent::H3(Ok(moved)) => moved,
            DriveEvent::Inbound(moved) => moved,
            DriveEvent::Timer(fired) => fired,
            _ => false,
        }
    }

    /// The error that ends the drive.
    pub open spec fn fault(self) -> Option<StreamError> {
        match self {
            DriveEvent::Send(PassPoll::Failed(error)) => Some(error),
            DriveEvent::Receive(PassPoll::Failed(error)) => Some(error),
            DriveEvent::H3(Err(error)) => Some(error),
            DriveEvent::Closed(true) => Some(StreamError::ConnectionClosed),
            _ => None,
        }
    }

    /// Whether something was done, or the error that ends the drive.
    fn outcome(self) -> (r: Result<bool, StreamError>)
        ensures
            match self.fault() {
                Some(error) => r == Err::<bool, StreamError>(error),
                None => r == Ok::<bool, StreamError>(self.moved()),
            },
    {
        match self {
            DriveEvent::Queue(moved) => Ok(moved),
            DriveEvent::Send(PassPoll::Ready(moved)) => Ok(moved),
            DriveEvent::Send(PassPoll::Pending) => Ok(false),
            DriveEvent::Send(PassPoll::Failed(error)) => Err(error),
            DriveEvent::Receive(PassPoll::Ready(moved)) => Ok(moved),
            DriveEvent::Receive(PassPoll::Pending) => Ok(false),
            DriveEvent::Receive(PassPoll::Failed(error)) => Err(error),
            DriveEvent::H3(result) => result,
            DriveEvent::Inbound(moved) => Ok(moved),
            DriveEvent::Timer(fired) => Ok(fired),
            DriveEvent::Closed(closed) => if closed {
                Err(StreamError::ConnectionClosed)
            } else {
                Ok(false)
            },
        }
    }
}

/// A drive under way.
#[derive(Debug, Clone, Copy, PartialEq, Eq, Structural)]
pub struct Drive {
    pub at: DrivePhase,
    /// Whether something was done in this round.
    pub made_progress: bool,
    /// Whether something was done in an earlier round.
    pub progressed: bool,
}

impl Drive {
    /// A drive that has not begun.
    pub open spec fn fresh(self) -> bool {
        self == (Drive { at: DrivePhase::Queue, made_progress: false, progressed: false })
    }

    /// The event is of the pass under way.
    pub open spec fn expects(self, event: DriveEvent) -> bool {
        match self.at {
            DrivePhase::Queue => event is Queue,
            DrivePhase::FirstSend => event is Send,
            DrivePhase::Receive => event is Receive,
            DrivePhase::H3 => event is H3,
            DrivePhase::Inbound => event is Inbound,
            DrivePhase::Timer => event is Timer,
            DrivePhase::SecondSend => event is Send,
            DrivePhase::Check => event is Closed,
        }
    }

    /// The next pass of the round, and what to do for it.
    pub open spec fn pass_after(self, event: DriveEvent) -> (DrivePhase, DriveStep) {
        match self.at {
            DrivePhase::Queue => (DrivePhase::FirstSend, DriveStep::Send),
            DrivePhase::FirstSend => (DrivePhase::Receive, DriveStep::Receive),
            DrivePhase::Receive => (DrivePhase::H3, DriveStep::PollH3),
            DrivePhase::H3 => (DrivePhase::Inbound, DriveStep::TakeIn),
            DrivePhase::Inbound => (DrivePhase::Timer, DriveStep::PollTimer),
            DrivePhase::Timer => (
                DrivePhase::SecondSend,
                if event.moved() {
                    DriveStep::ExpireAndSend
                } else {
                    DriveStep::Send
                },
            ),
            DrivePhase::SecondSend => (DrivePhase::Check, DriveStep::CheckClosed),
            DrivePhase::Check => (DrivePhase::Queue, DriveStep::FlushQueue),
        }
    }

    /// How the drive goes on. A pass follows the other; a round in which something was done is
    /// followed by another round, and one in which nothing was done ends the drive.
    pub open spec fn follows(self, event: DriveEvent, after: Drive, step: DriveStep) -> bool {
        match event.fault() {
            Some(error) => after == self && step == DriveStep::Return(DrivePoll::Failed(error)),
            None => if self.at != DrivePhase::Check {
                &&& after == (Drive {
                    at: self.pass_after(event).0,
                    made_progress: self.made_progress || event.moved(),
                    progressed: self.progressed,
                })
                &&& step == self.pass_after(event).1
            } else if self.made_progress {
                &&& after == (Drive {
                    at: DrivePhase::Queue,
                    made_progress: false,
                    progressed: true,
                })
                &&& step == DriveStep::FlushQueue
            } else {
                &&& after == self
                &&& step == DriveStep::Return(
                    if self.progressed {
                        DrivePoll::Done
                    } else {
                        DrivePoll::Pending
                    },
                )
            },
        }
    }

    /// A drive that has not begun. Its first step is `DriveStep::FlushQueue`.
    pub fn new() -> (r: Drive)
        ensures
            r.fresh(),
    {
        Drive { at: DrivePhase::Queue, made_progress: false, progressed: false }
    }

    /// Drives the session: takes in how a pass ended and says which to make next, or how the drive
    /// ended.
    pub fn poll_drive(&mut self, event: DriveEvent) -> (r: DriveStep)
        requires
            old(self).expects(event),
        ensures
            old(self).follows(event, *final(self), r),
    {
        let fired = match &event {
            DriveEvent::Timer(fired) => *fired,
            _ => false,
        };
        match event.outcome() {
            Ok(moved) => {
                if self.at == DrivePhase::Check {
                    if !self.made_progress {
                        return DriveStep::Return(
                            if self.progressed {
                                DrivePoll::Done
                            } else {
                                DrivePoll::Pending
                            },
                        );
                    }
                    self.made_progress = false;
                    self.progressed = true;
                } else {
                    self.made_progress = self.made_progress || moved;
                }
            },
            Err(error) => {
                return DriveStep::Return(DrivePoll::Failed(error));
            },
        }
        let (at, step) = match self.at {
            DrivePhase::Queue => (DrivePhase::FirstSend, DriveStep::Send),
            DrivePhase::FirstSend => (DrivePhase::Receive, DriveStep::Receive),
            DrivePhase::Receive => (DrivePhase::H3, DriveStep::PollH3),
            DrivePhase::H3 => (DrivePhase::Inbound, DriveStep::TakeIn),
            DrivePhase::Inbound => (DrivePhase::Timer, DriveStep::PollTimer),
            DrivePhase::Timer => (
                DrivePhase::SecondSend,
                if fired {
                    DriveStep::ExpireAndSend
                } else {
                    DriveStep::Send
                },
            ),
            DrivePhase::SecondSend => (DrivePhase::Check, DriveStep::CheckClosed),
            DrivePhase::Check => (DrivePhase::Queue, DriveStep::FlushQueue),
        };
        self.at = at;
        step
    }
}

/// The states that a drive went through and the events in between.
pub struct DriveRun {
    pub states: Seq<Drive>,
    pub events: Seq<DriveEvent>,
    pub steps: Seq<DriveStep>,
}

impl DriveRun {
    /// Each state follows from the one before, the first has not begun, and only the last step may
    /// end the drive.
    pub open spec fn valid(self) -> bool {
        &&& self.states.len() == self.events.len() + 1
        &&& self.steps.len() == self.events.len()
        &&& self.states[0].fresh()
        &&& forall|i: int| #![trigger self.events[i]]
            0 <= i < self.events.len() ==> self.states[i].expects(self.events[i])
                && self.states[i].follows(self.events[i], self.states[i + 1], self.steps[i])
        &&& forall|i: int|
            0 <= i < self.events.len() - 1 ==> !((#[trigger] self.steps[i]) is Return)
    }

    /// Something was done in one of the events from `from` to before `to`.
    pub open spec fn moved(self, from: int, to: int) -> bool {
        exists|i: int| from <= i < to && (#[trigger] self.events[i]).moved()
    }
}

/// How many passes of the round are over.
pub(crate) open spec fn passes_done(at: DrivePhase) -> int {
    match at {
        DrivePhase::Queue => 0,
        DrivePhase::FirstSend => 1,
        DrivePhase::Receive => 2,
        DrivePhase::H3 => 3,
        DrivePhase::Inbound => 4,
        DrivePhase::Timer => 5,
        DrivePhase::SecondSend => 6,
        DrivePhase::Check => 7,
    }
}

/// What a drive remembers of its first `n` events.
pub(crate) proof fn lemma_drive_memory(run: DriveRun, n: int)
    requires
        run.valid(),
        0 <= n < run.states.len(),
        n > 0 ==> !(run.steps[n - 1] is Return),
    ensures
        passes_done(run.states[n].at) <= n,
        run.states[n].made_progress == run.moved(n - passes_done(run.states[n].at), n),
        run.states[n].progressed == run.moved(0, n - passes_done(run.states[n].at)),
    decreases n,
{
    if n > 0 {
        lemma_drive_memory(run, n - 1);
        let event = run.events[n - 1];
        let before = run.states[n - 1];
        let after = run.states[n];
        assert(before.follows(event, after, run.steps[n - 1]));
        let start = n - 1 - passes_done(before.at);
        if before.at == DrivePhase::Check {
            let i = choose|i: int| start <= i < n - 1 && (#[trigger] run.events[i]).moved();
            assert(run.events[i].moved());
            assert(run.moved(0, n));
        } else {
            assert(passes_done(after.at) == passes_done(before.at) + 1);
            if event.moved() {
                assert(run.moved(start, n));
            } else if before.made_progress {
                let i = choose|i: int| start <= i < n - 1 && (#[trigger] run.events[i]).moved();
                assert(run.events[i].moved());
                assert(run.moved(start, n));
            }
        }
    }
}

/// A drive stops only when there is nothing left to do: unless it fails, it ends with a whole
/// round of eight events in which nothing was done. And it reports the truth: `Done` if
/// something was done at all, `Pending` if nothing was.
pub proof fn law_drive_stops_when_quiet(run: DriveRun, outcome: DrivePoll)
    requires
        run.valid(),
        run.events.len() > 0,
        run.steps.last() == DriveStep::Return(outcome),
        !(outcome is Failed),
    ensures
        run.events.len() >= 8,
        !run.moved(run.events.len() - 8, run.events.len() as int),
        outcome is Done <==> run.moved(0, run.events.len() as int),
        outcome is Pending <==> !run.moved(0, run.events.len() as int),
{
    let n = run.events.len() - 1;
    lemma_drive_memory(run, n);
    let before = run.states[n];
    let event = run.events[n];
    assert(before.follows(event, run.states[n + 1], run.steps[n]));
    assert(before.expects(event));
    assert(before.at == DrivePhase::Check);
    assert(!event.moved());
    if run.moved(n - 7, n + 1) {
        let i = choose|i: int| n - 7 <= i < n + 1 && (#[trigger] run.events[i]).moved();
        assert(run.moved(n - 7, n));
    }
    if run.moved(0, n + 1) {
        let i = choose|i: int| 0 <= i < n + 1 && (#[trigger] run.events[i]).moved();
        assert(i < n - 7);
        assert(run.moved(0, n - 7));
    }
    if run.moved(0, n - 7) {
        let i = choose|i: int| 0 <= i < n - 7 && (#[trigger] run.events[i]).moved();
        assert(run.events[i].moved());
        assert(run.moved(0, n + 1));
    }
}

/// A drive that fails does so with the error of the pass that failed.
pub proof fn law_drive_fails_with_cause(run: DriveRun, error: StreamError)
    requires
        run.valid(),
        run.events.len() > 0,
    ensures
        run.steps.last() == DriveStep::Return(DrivePoll::Failed(error)) <==>
            run.events.last().fault() == Some(error),
{
    let n = run.events.len() - 1;
    assert(run.states[n].follows(run.events[n], run.states[n + 1], run.steps[n]));
}

} // verus!
