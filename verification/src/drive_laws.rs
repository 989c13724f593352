//! What holds of the passes that a drive is made of, and of every drive.
use crate::datagram::packet_offset;
use crate::drive::{
    h3_follows, receive_follows, DatagramOutcome, DriveEvent, DrivePhase, DriveRun, DriveStep, H3Report, H3Step, InboundEvent,
    InboundStep, QueueEvent, QueueStep, ReceiveEvent, ReceiveStep, SendEvent, SendStep,
};
use crate::packet_session::{DrivePoll, FlushEvent, FlushPoll, PassPoll, StreamError};
use crate::send_laws::{answers, SendRun};
use crate::session_laws::{law_outbound_in_order, law_stream_wf, StreamCall, StreamRun};
use vstd::prelude::*;

verus! {

/// What a stream is made with stays: the flow's prefix, the server's address and the keepalive
/// period. And only sending touches the packet that waits for the socket.
pub proof fn law_stream_settings_last(run: StreamRun, n: int)
    requires
        run.valid(),
        0 <= n < run.states.len(),
    ensures
        run.states[n].flow_prefix == run.states[0].flow_prefix,
        run.states[n].endpoint == run.states[0].endpoint,
        run.states[n].keepalive_period == run.states[0].keepalive_period,
        n > 0 && !(run.calls[n - 1] is Send) ==> run.states[n].pending_send
            == run.states[n - 1].pending_send,
    decreases n,
{
    if n > 0 {
        law_stream_settings_last(run, n - 1);
        assert(run.calls[n - 1].leads(run.states[n - 1], run.states[n]));
    }
}

/// The packets that are offered for preparing are, byte for byte and in order, those that the sink
/// took: each is the first of those that are not done with. While there is one, the pass goes on
/// with it, unless the transport takes no more.
pub proof fn law_packets_offered_whole(run: StreamRun, i: int, event: QueueEvent, step: QueueStep)
    requires
        run.valid(),
        0 <= i < run.calls.len(),
        run.calls[i] matches StreamCall::Queue { event: e, step: s, .. } && e == event && s == step,
    ensures
        step matches QueueStep::Prepare(packet) ==> {
            &&& run.settled(i + 1).len() < run.accepted(i + 1).len()
            &&& packet@ == run.accepted(i + 1)[run.settled(i + 1).len() as int]@
        },
        step is Return && !(event matches QueueEvent::Handed(DatagramOutcome::Done))
            ==> run.settled(i + 1) == run.accepted(i + 1),
        event is Begin ==> step is Prepare || step is Return,
        event matches QueueEvent::Prepared(None) ==> step is Prepare || step is Return,
        event matches QueueEvent::Handed(DatagramOutcome::Done) ==> step is Return,
        event matches QueueEvent::Handed(outcome) ==> (!(outcome is Done) ==> step is Prepare || step
            is Return),
{
    assert(run.calls[i].leads(run.states[i], run.states[i + 1]));
    law_outbound_in_order(run, i + 1);
    if step is Return && !(event matches QueueEvent::Handed(DatagramOutcome::Done)) {
        assert(run.settled(i + 1) =~= run.accepted(i + 1));
    }
}

/// What is handed to the transport is the flow's prefix and then the packet as it was prepared, all
/// of it. A packet that was prepared is handed over, and nothing else is.
pub proof fn law_prepared_packet_is_handed(run: StreamRun, i: int, event: QueueEvent, step: QueueStep)
    requires
        run.valid(),
        0 <= i < run.calls.len(),
        run.calls[i] matches StreamCall::Queue { event: e, step: s, .. } && e == event && s == step,
    ensures
        event matches QueueEvent::Prepared(Some(packet)) ==> (step matches QueueStep::Hand(dgram)
            && dgram@ == run.states[0].flow_prefix@ + packet@),
        step is Hand ==> event matches QueueEvent::Prepared(Some(_)),
{
    assert(run.calls[i].leads(run.states[i], run.states[i + 1]));
    law_stream_settings_last(run, i);
}

impl StreamRun {
    /// The calls from `a` to `b` are a pass over the outgoing queue, up to where it stands.
    pub open spec fn queue_pass(self, a: int, b: int) -> bool {
        &&& 0 <= a <= b < self.calls.len()
        &&& self.calls[a] matches StreamCall::Queue { progressed: false, event, .. } && event
            is Begin
        &&& forall|x: int| #![trigger self.calls[x]]
            a < x <= b ==> (self.calls[x] matches StreamCall::Queue { progressed, event, .. } && !(
            event is Begin) && (self.calls[x - 1] matches StreamCall::Queue {
                progressed_after,
                ..
            } && progressed == progressed_after))
    }

    /// The calls from `a` to `b` are a pass over the transport's datagrams, up to where it stands.
    pub open spec fn inbound_pass(self, a: int, b: int) -> bool {
        &&& 0 <= a <= b < self.calls.len()
        &&& self.calls[a] matches StreamCall::Inbound { progressed: false, event, .. } && event
            is Begin
        &&& forall|x: int| #![trigger self.calls[x]]
            a < x <= b ==> (self.calls[x] matches StreamCall::Inbound { progressed, event, .. } && !(
            event is Begin) && (self.calls[x - 1] matches StreamCall::Inbound {
                progressed_after,
                ..
            } && progressed == progressed_after))
    }

    /// A datagram was taken in with one of the calls from `a` to `b`.
    pub open spec fn took_datagram(self, a: int, b: int) -> bool {
        exists|x: int|
            a <= x <= b && (#[trigger] self.calls[x] matches StreamCall::Inbound { event, .. }
                && event is Datagram)
    }
}

/// The pass remembers whether a packet has left the queue.
proof fn lemma_queue_pass(run: StreamRun, a: int, b: int)
    requires
        run.valid(),
        run.queue_pass(a, b),
    ensures
        run.settled(a).len() <= run.settled(b + 1).len(),
        run.calls[b] matches StreamCall::Queue { progressed_after, .. } && progressed_after == (
        run.settled(b + 1).len() > run.settled(a).len()),
    decreases b - a,
{
    assert(run.calls[b].leads(run.states[b], run.states[b + 1]));
    if a < b {
        assert(run.queue_pass(a, b - 1)) by {
            assert(run.calls[b] is Queue);
        }
        lemma_queue_pass(run, a, b - 1);
    }
}

/// A pass over the outgoing queue reports the truth: that something was done exactly if a packet
/// left the queue in it.
pub proof fn law_queue_pass_reports(run: StreamRun, a: int, b: int, moved: bool)
    requires
        run.valid(),
        run.queue_pass(a, b),
        run.calls[b] matches StreamCall::Queue { step, .. } && step == QueueStep::Return(moved),
    ensures
        moved <==> run.settled(b + 1).len() > run.settled(a).len(),
{
    lemma_queue_pass(run, a, b);
    assert(run.calls[b].leads(run.states[b], run.states[b + 1]));
}

/// The pass remembers whether there was a datagram.
proof fn lemma_inbound_pass(run: StreamRun, a: int, b: int)
    requires
        run.valid(),
        run.inbound_pass(a, b),
    ensures
        run.calls[b] matches StreamCall::Inbound { progressed_after, .. } && progressed_after
            == run.took_datagram(a, b),
    decreases b - a,
{
    assert(run.calls[b].leads(run.states[b], run.states[b + 1]));
    if a < b {
        assert(run.inbound_pass(a, b - 1)) by {
            assert(run.calls[b] is Inbound);
        }
        lemma_inbound_pass(run, a, b - 1);
        if run.took_datagram(a, b - 1) {
            let x = choose|x: int|
                a <= x <= b - 1 && (#[trigger] run.calls[x] matches StreamCall::Inbound {
                    event,
                    ..
                } && event is Datagram);
            assert(run.calls[x] is Inbound);
            assert(run.took_datagram(a, b));
        }
        if run.took_datagram(a, b) && !run.took_datagram(a, b - 1) {
            let x = choose|x: int|
                a <= x <= b && (#[trigger] run.calls[x] matches StreamCall::Inbound { event, .. }
                    && event is Datagram);
            assert(x == b);
        }
    }
}

/// A pass over the transport's datagrams reports the truth: that something was done exactly if
/// there was a datagram in it.
pub proof fn law_inbound_pass_reports(run: StreamRun, a: int, b: int, moved: bool)
    requires
        run.valid(),
        run.inbound_pass(a, b),
        run.calls[b] matches StreamCall::Inbound { step, .. } && step == InboundStep::Return(moved),
    ensures
        moved <==> run.took_datagram(a, b),
{
    lemma_inbound_pass(run, a, b);
    assert(run.calls[b].leads(run.states[b], run.states[b + 1]));
}

/// Each packet of flow 0 that arrives is looked at, whole, and nothing else is. The transport is
/// asked for a datagram only while there is room for a packet, and for as long as there is room and
/// it has one.
pub proof fn law_arrivals_are_looked_at(run: StreamRun, i: int, event: InboundEvent, step: InboundStep)
    requires
        run.valid(),
        0 <= i < run.calls.len(),
        run.calls[i] matches StreamCall::Inbound { event: e, step: s, .. } && e == event && s == step,
    ensures
        event matches InboundEvent::Datagram(dgram) ==> (packet_offset(dgram@, 0) matches Some(offset)
            ==> (step matches InboundStep::Examine(packet) && packet@ == dgram@.skip(
            offset as int,
        ))),
        step is Examine ==> (event matches InboundEvent::Datagram(dgram) && packet_offset(dgram@, 0)
            is Some),
        event is Done || event is Failed ==> step is Return,
        step is Receive ==> run.states[i + 1].inbound_queue@.len() < 32_768,
        step is Return && !(event is Done) && !(event is Failed)
            ==> run.states[i + 1].inbound_queue@.len() == 32_768,
{
    assert(run.calls[i].leads(run.states[i], run.states[i + 1]));
    law_stream_wf(run, i);
    law_stream_wf(run, i + 1);
}

/// After each step of a pass the stream takes in whatever answers it. A pass over the outgoing queue or
/// one that sends can begin at any time, and one over the transport's datagrams whenever no packet is
/// being looked at.
pub proof fn law_answers_are_taken_in(run: StreamRun, i: int)
    requires
        run.valid(),
        0 <= i < run.calls.len(),
    ensures
        ({
            let after = run.states[i + 1];
            &&& after.queue_expects(QueueEvent::Begin)
            &&& after.send_expects(SendEvent::Begin)
            &&& run.calls[i] matches StreamCall::Queue { step, .. } ==> (step is Prepare || step is Hand
                ==> forall|event: QueueEvent| #[trigger] after.queue_expects(event))
            &&& run.calls[i] matches StreamCall::Inbound { step, .. } ==> {
                &&& step is Receive ==> forall|event: InboundEvent| #[trigger]
                    after.inbound_expects(event) <==> !(event is Examined)
                &&& step is Examine ==> forall|event: InboundEvent| #[trigger]
                    after.inbound_expects(event) <==> event is Examined
                &&& step is Return ==> after.inbound_expects(InboundEvent::Begin)
            }
            &&& run.calls[i] matches StreamCall::Send { step, .. } ==> forall|event: SendEvent|
                answers(step, event) ==> #[trigger] after.send_expects(event)
            &&& forall|queue_before: usize, outcome: DrivePoll| #[trigger]
                after.flush_expects(FlushEvent::Driven { queue_before, outcome })
            &&& after.flush_expects(FlushEvent::Begin)
            &&& after.outbound_queue@.len() == 0 ==> forall|poll: PassPoll| #[trigger]
                after.flush_expects(FlushEvent::Sent(poll))
            &&& after.close_expects(None)
            &&& after.outbound_queue@.len() == 0 ==> forall|flush: FlushPoll| #[trigger]
                after.close_expects(Some(flush))
            &&& forall|error: StreamError| #[trigger]
                after.close_expects(Some(FlushPoll::Failed(error)))
            &&& after.close_expects(Some(FlushPoll::Pending))
        }),
{
    assert(run.calls[i].leads(run.states[i], run.states[i + 1]));
    law_stream_wf(run, i);
    law_stream_wf(run, i + 1);
}

/// Sending goes on while it can: a pass ends only if the socket takes no more, the transport has
/// nothing more, or something failed; and what failed is reported in its own words.
pub proof fn law_sending_goes_on(run: SendRun, i: int)
    requires
        run.valid(),
        0 <= i < run.events.len(),
    ensures
        match run.events[i] {
            SendEvent::Begin => if run.states[0].pending_send is None {
                run.steps[i] is PollWritable
            } else {
                run.steps[i] is TrySend || (run.steps[i] matches SendStep::Return(poll) && poll
                    is Failed)
            },
            SendEvent::Writable => run.steps[i] is MakePacket,
            SendEvent::NotWritable => run.steps[i] == SendStep::Return(
                if run.whole_sent(i) {
                    PassPoll::Ready(true)
                } else {
                    PassPoll::Pending
                },
            ),
            SendEvent::WouldBlock => run.steps[i] == SendStep::Return(
                if run.whole_sent(i) {
                    PassPoll::Ready(true)
                } else {
                    PassPoll::Pending
                },
            ),
            SendEvent::NothingToSend => run.steps[i] == SendStep::Return(
                PassPoll::Ready(run.whole_sent(i)),
            ),
            SendEvent::Packet { len, to } => {
                &&& run.states[i + 1].pending_send matches Some(pending)
                &&& pending.len == len && pending.to == to
                &&& if to.addr == run.states[i].endpoint.addr {
                    run.steps[i] == SendStep::TrySend(len)
                } else {
                    &&& run.steps[i] matches SendStep::Return(
                        PassPoll::Failed(StreamError::UnexpectedTarget { to: told, expected }),
                    )
                    &&& told@ == to.text@
                    &&& expected@ == run.states[i].endpoint.text@
                }
            },
            SendEvent::Sent(_) => if run.whole_sent_at(i) {
                run.steps[i] is PollWritable
            } else {
                run.steps[i] == SendStep::Return(PassPoll::Failed(StreamError::PartialSend))
            },
            SendEvent::WritableFailed(text) => run.steps[i] == SendStep::Return(
                PassPoll::Failed(StreamError::Socket(text)),
            ),
            SendEvent::SendFailed(text) => run.steps[i] == SendStep::Return(
                PassPoll::Failed(StreamError::Socket(text)),
            ),
            SendEvent::QuicFailed(text) => run.steps[i] == SendStep::Return(
                PassPoll::Failed(StreamError::Quic(text)),
            ),
        },
        run.states[i + 1].endpoint == run.states[i].endpoint,
        run.states[i + 1].outbound_queue == run.states[i].outbound_queue,
        run.states[i + 1].inbound_queue == run.states[i].inbound_queue,
{
    assert(run.states[i].send_follows(
        run.flushed[i],
        run.events[i],
        run.states[i + 1],
        run.flushed[i + 1],
        run.steps[i],
    ));
    assert(run.states[i].send_expects(run.events[i]));
    crate::send_laws::lemma_flushed(run, i);
    if i > 0 {
        let before = run.events[i - 1];
        assert(run.states[i - 1].send_follows(
            run.flushed[i - 1],
            before,
            run.states[i],
            run.flushed[i],
            run.steps[i - 1],
        ));
    }
}

/// The events and steps of a pass in which datagrams are received, and whether one had been handed
/// to the transport by then.
pub struct ReceiveRun {
    pub received: Seq<bool>,
    pub events: Seq<ReceiveEvent>,
    pub steps: Seq<ReceiveStep>,
}

/// The event tells how the step ended.
pub open spec fn receive_answers(step: ReceiveStep, event: ReceiveEvent) -> bool {
    match step {
        ReceiveStep::PollReadable => event is Readable || event is NotReadable || event
            is ReadableFailed,
        ReceiveStep::TryReceive => event is Received || event is WouldBlock || event
            is ReceiveFailed,
        ReceiveStep::Deliver(_) => event is Delivered,
        ReceiveStep::Return(_) => false,
    }
}

impl ReceiveRun {
    /// The pass begins, each event answers the step before it, and each step follows.
    pub open spec fn valid(self) -> bool {
        &&& self.events.len() > 0
        &&& self.received.len() == self.events.len() + 1
        &&& self.steps.len() == self.events.len()
        &&& !self.received[0]
        &&& self.events[0] is Begin
        &&& forall|i: int| #![trigger self.events[i]]
            0 < i < self.events.len() ==> receive_answers(self.steps[i - 1], self.events[i])
        &&& forall|i: int| #![trigger self.events[i]]
            0 <= i < self.events.len() ==> receive_follows(
                self.received[i],
                self.events[i],
                self.received[i + 1],
                self.steps[i],
            )
    }

    /// A datagram was handed to the transport within the first `n` events.
    pub open spec fn delivered(self, n: int) -> bool {
        exists|i: int| 0 <= i < n && (#[trigger] self.events[i]) is Delivered
    }
}

/// The pass remembers whether a datagram was handed over.
proof fn lemma_received(run: ReceiveRun, n: int)
    requires
        run.valid(),
        0 <= n <= run.events.len(),
    ensures
        run.received[n] == run.delivered(n),
    decreases n,
{
    if n > 0 {
        lemma_received(run, n - 1);
        let event = run.events[n - 1];
        assert(receive_follows(run.received[n - 1], event, run.received[n], run.steps[n - 1]));
        if run.delivered(n - 1) {
            let i = choose|i: int| 0 <= i < n - 1 && (#[trigger] run.events[i]) is Delivered;
            assert(run.events[i] is Delivered);
        }
    }
}

/// Every datagram that arrives is handed to the transport, with its length, and nothing else is.
/// Receiving goes on until the socket has nothing more or fails; the pass reports that something
/// was done exactly if a datagram was handed over in it, and what failed in its own words.
pub proof fn law_receiving_goes_on(run: ReceiveRun, i: int)
    requires
        run.valid(),
        0 <= i < run.events.len(),
    ensures
        match run.events[i] {
            ReceiveEvent::Received(len) => run.steps[i] == ReceiveStep::Deliver(len),
            ReceiveEvent::NotReadable => run.steps[i] == ReceiveStep::Return(
                if run.delivered(i) {
                    PassPoll::Ready(true)
                } else {
                    PassPoll::Pending
                },
            ),
            ReceiveEvent::ReadableFailed(text) => run.steps[i] == ReceiveStep::Return(
                PassPoll::Failed(StreamError::Socket(text)),
            ),
            ReceiveEvent::ReceiveFailed(text) => run.steps[i] == ReceiveStep::Return(
                PassPoll::Failed(StreamError::Socket(text)),
            ),
            ReceiveEvent::Readable => run.steps[i] is TryReceive,
            ReceiveEvent::Delivered => run.steps[i] is TryReceive,
            ReceiveEvent::Begin => run.steps[i] is PollReadable,
            ReceiveEvent::WouldBlock => run.steps[i] is PollReadable,
        },
{
    lemma_received(run, i);
    assert(receive_follows(run.received[i], run.events[i], run.received[i + 1], run.steps[i]));
}

/// What HTTP/3 reported in a pass, what was done about it, and whether there had been something by
/// then.
pub struct H3Run {
    pub progressed: Seq<bool>,
    pub reports: Seq<H3Report>,
    pub steps: Seq<H3Step>,
}

impl H3Run {
    /// Each step follows from the report.
    pub open spec fn valid(self) -> bool {
        &&& self.progressed.len() == self.reports.len() + 1
        &&& self.steps.len() == self.reports.len()
        &&& !self.progressed[0]
        &&& forall|i: int| #![trigger self.reports[i]]
            0 <= i < self.reports.len() ==> h3_follows(
                self.progressed[i],
                self.reports[i],
                self.progressed[i + 1],
                self.steps[i],
            )
    }

    /// There was an event among the first `n` reports.
    pub open spec fn reported(self, n: int) -> bool {
        exists|i: int| 0 <= i < n && (#[trigger] self.reports[i]) is Event
    }
}

/// The pass remembers whether there was an event.
proof fn lemma_reported(run: H3Run, n: int)
    requires
        run.valid(),
        0 <= n <= run.reports.len(),
    ensures
        run.progressed[n] == run.reported(n),
    decreases n,
{
    if n > 0 {
        lemma_reported(run, n - 1);
        let report = run.reports[n - 1];
        assert(h3_follows(run.progressed[n - 1], report, run.progressed[n], run.steps[n - 1]));
        if run.reported(n - 1) {
            let i = choose|i: int| 0 <= i < n - 1 && (#[trigger] run.reports[i]) is Event;
            assert(run.reports[i] is Event);
        }
    }
}

/// HTTP/3 is asked for events until it has none. The pass reports that something was done exactly
/// if there was an event in it, and a failure in its own words.
pub proof fn law_h3_is_heard_out(run: H3Run, i: int)
    requires
        run.valid(),
        0 <= i < run.reports.len(),
    ensures
        match run.reports[i] {
            H3Report::Event => run.steps[i] is Poll,
            H3Report::Done => run.steps[i] == H3Step::Return(Ok(run.reported(i))),
            H3Report::Failed(text) => run.steps[i] == H3Step::Return(
                Err(StreamError::H3Poll(text)),
            ),
        },
{
    lemma_reported(run, i);
    assert(h3_follows(run.progressed[i], run.reports[i], run.progressed[i + 1], run.steps[i]));
}

/// A pass did something, or the timer had run out.
pub open spec fn busy(event: DriveEvent) -> bool {
    ||| event == DriveEvent::Queue(true)
    ||| event == DriveEvent::Send(PassPoll::Ready(true))
    ||| event == DriveEvent::Receive(PassPoll::Ready(true))
    ||| event == DriveEvent::H3(Ok(true))
    ||| event == DriveEvent::Inbound(true)
    ||| event == DriveEvent::Timer(true)
}

/// The pass whose turn it is with event `i`, and what to do for it: the passes come in turn, eight
/// to a round.
pub open spec fn turn(i: int, event: DriveEvent) -> bool {
    &&& i % 8 == 0 ==> event is Queue
    &&& i % 8 == 1 ==> event is Send
    &&& i % 8 == 2 ==> event is Receive
    &&& i % 8 == 3 ==> event is H3
    &&& i % 8 == 4 ==> event is Inbound
    &&& i % 8 == 5 ==> event is Timer
    &&& i % 8 == 6 ==> event is Send
    &&& i % 8 == 7 ==> event is Closed
}

/// The drive has come to the pass whose turn it is.
proof fn lemma_turn(run: DriveRun, n: int)
    requires
        run.valid(),
        0 <= n < run.states.len(),
        n > 0 ==> !(run.steps[n - 1] is Return),
    ensures
        n % 8 == 0 ==> run.states[n].at == DrivePhase::Queue,
        n % 8 == 1 ==> run.states[n].at == DrivePhase::FirstSend,
        n % 8 == 2 ==> run.states[n].at == DrivePhase::Receive,
        n % 8 == 3 ==> run.states[n].at == DrivePhase::H3,
        n % 8 == 4 ==> run.states[n].at == DrivePhase::Inbound,
        n % 8 == 5 ==> run.states[n].at == DrivePhase::Timer,
        n % 8 == 6 ==> run.states[n].at == DrivePhase::SecondSend,
        n % 8 == 7 ==> run.states[n].at == DrivePhase::Check,
    decreases n,
{
    if n > 0 {
        lemma_turn(run, n - 1);
        assert(run.states[n - 1].follows(run.events[n - 1], run.states[n], run.steps[n - 1]));
    }
}

/// No pass is left out and none is made twice: each round is a pass over the outgoing queue, one
/// that sends, one that receives, one over what HTTP/3 reports, one over the transport's datagrams,
/// a look at the timer, another that sends and a look at the connection, in this order. Before the
/// second that sends, the transport is told of its timer exactly if that has run out.
pub proof fn law_drive_makes_every_pass(run: DriveRun, i: int)
    requires
        run.valid(),
        0 <= i < run.events.len(),
    ensures
        turn(i, run.events[i]),
        forall|event: DriveEvent| #[trigger] run.states[i].expects(event) <==> turn(i, event),
        !(run.steps[i] is Return) ==> {
            &&& i % 8 == 0 ==> run.steps[i] is Send
            &&& i % 8 == 1 ==> run.steps[i] is Receive
            &&& i % 8 == 2 ==> run.steps[i] is PollH3
            &&& i % 8 == 3 ==> run.steps[i] is TakeIn
            &&& i % 8 == 4 ==> run.steps[i] is PollTimer
            &&& i % 8 == 5 ==> if run.events[i] == DriveEvent::Timer(true) {
                run.steps[i] is ExpireAndSend
            } else {
                run.steps[i] is Send
            }
            &&& i % 8 == 6 ==> run.steps[i] is CheckClosed
            &&& i % 8 == 7 ==> run.steps[i] is FlushQueue
        },
{
    lemma_turn(run, i);
    assert(run.states[i].expects(run.events[i]));
    assert(run.states[i].follows(run.events[i], run.states[i + 1], run.steps[i]));
}

/// A drive goes on until a whole round has done nothing: it ends with a failure of a pass or with
/// the connection closed, and with nothing else before that. It ends as done exactly if some pass
/// did something, and as pending exactly if none did.
pub proof fn law_drive_ends_with_a_quiet_round(run: DriveRun)
    requires
        run.valid(),
        run.events.len() > 0,
    ensures
        ({
            let n = run.events.len() as int;
            match run.events[n - 1] {
                DriveEvent::Send(PassPoll::Failed(error)) => run.steps[n - 1] == DriveStep::Return(
                    DrivePoll::Failed(error),
                ),
                DriveEvent::Receive(PassPoll::Failed(error)) => run.steps[n - 1]
                    == DriveStep::Return(DrivePoll::Failed(error)),
                DriveEvent::H3(Err(error)) => run.steps[n - 1] == DriveStep::Return(
                    DrivePoll::Failed(error),
                ),
                DriveEvent::Closed(true) => run.steps[n - 1] == DriveStep::Return(
                    DrivePoll::Failed(StreamError::ConnectionClosed),
                ),
                DriveEvent::Closed(false) => if exists|k: int|
                    n - 8 <= k < n && busy(#[trigger] run.events[k]) {
                    run.steps[n - 1] is FlushQueue
                } else if exists|k: int| 0 <= k < n && busy(#[trigger] run.events[k]) {
                    run.steps[n - 1] == DriveStep::Return(DrivePoll::Done)
                } else {
                    run.steps[n - 1] == DriveStep::Return(DrivePoll::Pending)
                },
                _ => !(run.steps[n - 1] is Return),
            }
        }),
{
    let n = run.events.len() as int;
    let event = run.events[n - 1];
    lemma_turn(run, n - 1);
    assert(run.states[n - 1].expects(event));
    assert(run.states[n - 1].follows(event, run.states[n], run.steps[n - 1]));
    assert forall|k: int| 0 <= k < n implies busy(#[trigger] run.events[k])
        == run.events[k].moved() by {}
    if event == DriveEvent::Closed(false) {
        crate::drive::lemma_drive_memory(run, n - 1);
        if run.moved(n - 8, n - 1) {
            let k = choose|k: int| n - 8 <= k < n - 1 && (#[trigger] run.events[k]).moved();
            assert(busy(run.events[k]));
        }
        if run.moved(0, n - 8) {
            let k = choose|k: int| 0 <= k < n - 8 && (#[trigger] run.events[k]).moved();
            assert(busy(run.events[k]));
        }
        if exists|k: int| n - 8 <= k < n && busy(#[trigger] run.events[k]) {
            let k = choose|k: int| n - 8 <= k < n && busy(#[trigger] run.events[k]);
            assert(run.events[k].moved());
            assert(run.moved(n - 8, n - 1));
        }
        if exists|k: int| 0 <= k < n && busy(#[trigger] run.events[k]) {
            let k = choose|k: int| 0 <= k < n && busy(#[trigger] run.events[k]);
            assert(run.events[k].moved());
            assert(run.moved(n - 8, n - 1) || run.moved(0, n - 8));
        }
    }
}

} // verus!
