//! What holds of every run of a packet stream: whatever is called on it, in whatever order, and
//! whatever happens outside.
use crate::datagram::{flow_prefix, law_datagram_round_trip, packet_offset};
use crate::drive::{
    InboundEvent, InboundStep, QueueEvent, QueueStep, SendEvent, SendStep, INBOUND_FLOW_ID,
};
use crate::packet_session::{
    CloseStep, DrivePoll, FlushEvent, FlushPoll, FlushStep, MasquePacketStream, NextStep,
    PacketSessionState, PassPoll, ReadyStep, StreamError, DEFAULT_QUEUE_CAPACITY,
};
use vstd::prelude::*;

verus! {

/// The packet that is being looked at.
pub open spec fn under_way(stream: MasquePacketStream) -> Seq<Seq<u8>> {
    match stream.examining {
        Some(packet) => seq![packet@],
        None => Seq::empty(),
    }
}

/// A call on a packet stream, with its arguments and its result.
pub enum StreamCall {
    Next { drive: Option<DrivePoll>, step: NextStep },
    Ready { drive: Option<DrivePoll>, step: ReadyStep },
    Start { item: Vec<u8>, result: Result<(), StreamError> },
    Flush { event: FlushEvent, step: FlushStep },
    Close { flush: Option<FlushPoll>, step: CloseStep },
    Queue { progressed: bool, event: QueueEvent, progressed_after: bool, step: QueueStep },
    Send { flushed: bool, event: SendEvent, flushed_after: bool, step: SendStep },
    Inbound { progressed: bool, event: InboundEvent, progressed_after: bool, step: InboundStep },
}

impl StreamCall {
    /// The call may be made on `before`, and leaves `after`.
    pub open spec fn leads(self, before: MasquePacketStream, after: MasquePacketStream) -> bool {
        match self {
            StreamCall::Next { drive, step } => before.next_follows(drive, after, step),
            StreamCall::Ready { drive, step } => before.ready_follows(drive, after, step),
            StreamCall::Start { item, result } => before.start_follows(item, after, result),
            StreamCall::Flush { event, step } => before.flush_expects(event)
                && before.flush_follows(event, after, step),
            StreamCall::Close { flush, step } => before.close_expects(flush)
                && before.close_follows(flush, after, step),
            StreamCall::Queue { progressed, event, progressed_after, step } => before.queue_expects(
                event,
            ) && before.queue_follows(progressed, event, after, progressed_after, step),
            StreamCall::Send { flushed, event, flushed_after, step } => before.send_expects(event)
                && before.send_follows(flushed, event, after, flushed_after, step),
            StreamCall::Inbound { progressed, event, progressed_after, step } =>
                before.inbound_expects(event) && before.inbound_follows(
                    progressed,
                    event,
                    after,
                    progressed_after,
                    step,
                ),
        }
    }

    /// The packet that the call puts into the outgoing queue.
    pub open spec fn accepted(self) -> Seq<Vec<u8>> {
        match self {
            StreamCall::Start { item, result: Ok(_) } => seq![item],
            _ => Seq::empty(),
        }
    }

    /// The packet that the call takes off the outgoing queue.
    pub open spec fn settled(self, before: MasquePacketStream) -> Seq<Vec<u8>> {
        match self {
            StreamCall::Queue { event, .. } => match event {
                QueueEvent::Prepared(None) => seq![before.outbound_queue@[0]],
                QueueEvent::Handed(outcome) => if outcome is Done {
                    Seq::empty()
                } else {
                    seq![before.outbound_queue@[0]]
                },
                _ => Seq::empty(),
            },
            _ => Seq::empty(),
        }
    }

    /// The packet of the stream's flow in the datagram that the call takes in.
    pub open spec fn arrived(self) -> Seq<Seq<u8>> {
        match self {
            StreamCall::Inbound { event: InboundEvent::Datagram(dgram), .. } => match packet_offset(
                dgram@,
                INBOUND_FLOW_ID as nat,
            ) {
                Some(offset) => seq![dgram@.skip(offset as int)],
                None => Seq::empty(),
            },
            _ => Seq::empty(),
        }
    }

    /// The packet that the call passes a verdict on.
    pub open spec fn judged(self, before: MasquePacketStream) -> Seq<Seq<u8>> {
        match self {
            StreamCall::Inbound { event: InboundEvent::Examined(_), .. } => under_way(before),
            _ => Seq::empty(),
        }
    }

    /// The packet that the call puts into the incoming queue.
    pub open spec fn admitted(self, before: MasquePacketStream) -> Seq<Vec<u8>> {
        match self {
            StreamCall::Inbound { event: InboundEvent::Examined(true), .. } => seq![
                before.examining->0,
            ],
            _ => Seq::empty(),
        }
    }

    /// The packet that the call yields.
    pub open spec fn yielded(self) -> Seq<Vec<u8>> {
        match self {
            StreamCall::Next { step: NextStep::Packet(packet), .. } => seq![packet],
            _ => Seq::empty(),
        }
    }

    /// The call yields an error.
    pub open spec fn yields_error(self) -> bool {
        self matches StreamCall::Next { step, .. } && step is Error
    }
}

/// The states that a packet stream went through and the calls in between.
pub struct StreamRun {
    pub states: Seq<MasquePacketStream>,
    pub calls: Seq<StreamCall>,
}

impl StreamRun {
    /// Each state follows from the one before, and the first is that of a new session.
    pub open spec fn valid(self) -> bool {
        &&& self.states.len() == self.calls.len() + 1
        &&& self.states[0].state == PacketSessionState::Ready
        &&& self.states[0].outbound_queue@.len() == 0
        &&& self.states[0].inbound_queue@.len() == 0
        &&& self.states[0].examining is None
        &&& self.states[0].terminal_error is None
        &&& !self.states[0].emitted_terminal_error
        &&& forall|i: int| #![trigger self.calls[i]]
            0 <= i < self.calls.len() ==> self.calls[i].leads(self.states[i], self.states[i + 1])
    }

    /// The packets that the sink took in the first `n` calls.
    pub open spec fn accepted(self, n: int) -> Seq<Vec<u8>>
        decreases n,
    {
        if n <= 0 {
            Seq::empty()
        } else {
            self.accepted(n - 1) + self.calls[n - 1].accepted()
        }
    }

    /// The packets that were done with in the first `n` calls: sent, or found not to be sendable.
    pub open spec fn settled(self, n: int) -> Seq<Vec<u8>>
        decreases n,
    {
        if n <= 0 {
            Seq::empty()
        } else {
            self.settled(n - 1) + self.calls[n - 1].settled(self.states[n - 1])
        }
    }

    /// The packets of the stream's flow in the datagrams of the first `n` calls.
    pub open spec fn arrived(self, n: int) -> Seq<Seq<u8>>
        decreases n,
    {
        if n <= 0 {
            Seq::empty()
        } else {
            self.arrived(n - 1) + self.calls[n - 1].arrived()
        }
    }

    /// The packets that a verdict was passed on in the first `n` calls.
    pub open spec fn judged(self, n: int) -> Seq<Seq<u8>>
        decreases n,
    {
        if n <= 0 {
            Seq::empty()
        } else {
            self.judged(n - 1) + self.calls[n - 1].judged(self.states[n - 1])
        }
    }

    /// The packets that were taken in in the first `n` calls: those with a good verdict.
    pub open spec fn admitted(self, n: int) -> Seq<Vec<u8>>
        decreases n,
    {
        if n <= 0 {
            Seq::empty()
        } else {
            self.admitted(n - 1) + self.calls[n - 1].admitted(self.states[n - 1])
        }
    }

    /// The packets that the stream yielded in the first `n` calls.
    pub open spec fn yielded(self, n: int) -> Seq<Vec<u8>>
        decreases n,
    {
        if n <= 0 {
            Seq::empty()
        } else {
            self.yielded(n - 1) + self.calls[n - 1].yielded()
        }
    }
}

/// What one call keeps.
proof fn lemma_call_keeps(call: StreamCall, before: MasquePacketStream, after: MasquePacketStream)
    requires
        before.wf(),
        call.leads(before, after),
    ensures
        after.wf(),
        before.outbound_queue@ + call.accepted() == call.settled(before) + after.outbound_queue@,
        before.inbound_queue@ + call.admitted(before) == call.yielded() + after.inbound_queue@,
        under_way(before) + call.arrived() == call.judged(before) + under_way(after),
        before.state == PacketSessionState::Closed ==> after.state == PacketSessionState::Closed,
        before.emitted_terminal_error ==> after.emitted_terminal_error,
        before.terminal() is Some ==> after.terminal() == before.terminal(),
{
    let out = before.outbound_queue@;
    let inn = before.inbound_queue@;
    assert(call.settled(before).len() > 0 ==> out =~= seq![out[0]] + out.drop_first());
    assert(call.yielded().len() > 0 ==> inn =~= seq![inn[0]] + inn.drop_first());
    assert(under_way(before) + call.arrived() =~= call.judged(before) + under_way(after));
    assert(before.outbound_queue@ + call.accepted() =~= call.settled(before)
        + after.outbound_queue@);
    assert(before.inbound_queue@ + call.admitted(before) =~= call.yielded() + after.inbound_queue@);
}

/// The queues never hold more than their capacity, and a session that failed is closed: every
/// state of every run is well formed.
pub proof fn law_stream_wf(run: StreamRun, n: int)
    requires
        run.valid(),
        0 <= n < run.states.len(),
    ensures
        run.states[n].wf(),
        run.states[n].outbound_queue@.len() <= DEFAULT_QUEUE_CAPACITY,
        run.states[n].inbound_queue@.len() <= DEFAULT_QUEUE_CAPACITY,
    decreases n,
{
    if n > 0 {
        law_stream_wf(run, n - 1);
        lemma_call_keeps(run.calls[n - 1], run.states[n - 1], run.states[n]);
    }
}

/// No packet that the sink took is lost, doubled or overtaken on its way to the transport: those
/// that are done with and then those in the queue are, in order, those that were taken.
pub proof fn law_outbound_in_order(run: StreamRun, n: int)
    requires
        run.valid(),
        0 <= n < run.states.len(),
    ensures
        run.accepted(n) == run.settled(n) + run.states[n].outbound_queue@,
    decreases n,
{
    if n > 0 {
        law_stream_wf(run, n - 1);
        law_outbound_in_order(run, n - 1);
        let call = run.calls[n - 1];
        let before = run.states[n - 1];
        lemma_call_keeps(call, before, run.states[n]);
        assert(run.accepted(n) =~= run.settled(n - 1) + (before.outbound_queue@ + call.accepted()));
        assert(run.accepted(n) =~= run.settled(n) + run.states[n].outbound_queue@);
    } else {
        assert(run.accepted(n) =~= run.settled(n) + run.states[n].outbound_queue@);
    }
}

/// Verdicts are passed on what came in, and on nothing else: the packets that a verdict was passed
/// on and then the one under way are, in order, the packets of the stream's flow in the datagrams.
pub proof fn law_verdicts_on_what_arrived(run: StreamRun, n: int)
    requires
        run.valid(),
        0 <= n < run.states.len(),
    ensures
        run.arrived(n) == run.judged(n) + under_way(run.states[n]),
    decreases n,
{
    if n > 0 {
        law_stream_wf(run, n - 1);
        law_verdicts_on_what_arrived(run, n - 1);
        let call = run.calls[n - 1];
        let before = run.states[n - 1];
        lemma_call_keeps(call, before, run.states[n]);
        assert(run.arrived(n) =~= run.judged(n - 1) + (under_way(before) + call.arrived()));
        assert(run.arrived(n) =~= run.judged(n) + under_way(run.states[n]));
    } else {
        assert(run.arrived(n) =~= run.judged(n) + under_way(run.states[n]));
    }
}

/// No packet that was taken in is lost, doubled or overtaken on its way to the reader: those that
/// were yielded and then those in the queue are, in order, those that were taken in.
pub proof fn law_inbound_in_order(run: StreamRun, n: int)
    requires
        run.valid(),
        0 <= n < run.states.len(),
    ensures
        run.admitted(n) == run.yielded(n) + run.states[n].inbound_queue@,
    decreases n,
{
    if n > 0 {
        law_stream_wf(run, n - 1);
        law_inbound_in_order(run, n - 1);
        let call = run.calls[n - 1];
        let before = run.states[n - 1];
        lemma_call_keeps(call, before, run.states[n]);
        assert(run.admitted(n) =~= run.yielded(n - 1) + (before.inbound_queue@ + call.admitted(
            before,
        )));
        assert(run.admitted(n) =~= run.yielded(n) + run.states[n].inbound_queue@);
    } else {
        assert(run.admitted(n) =~= run.yielded(n) + run.states[n].inbound_queue@);
    }
}

/// What lasts: once closed, a session is closed for good; its first error stays its error; once
/// the error is reported, it stays reported.
pub proof fn law_end_lasts(run: StreamRun, i: int, j: int)
    requires
        run.valid(),
        0 <= i <= j < run.states.len(),
    ensures
        run.states[i].state == PacketSessionState::Closed ==> run.states[j].state
            == PacketSessionState::Closed,
        run.states[i].terminal() is Some ==> run.states[j].terminal() == run.states[i].terminal(),
        run.states[i].emitted_terminal_error ==> run.states[j].emitted_terminal_error,
    decreases j - i,
{
    if i < j {
        law_end_lasts(run, i, j - 1);
        law_stream_wf(run, j - 1);
        lemma_call_keeps(run.calls[j - 1], run.states[j - 1], run.states[j]);
    }
}

/// The error that ended a session is reported once: of two calls at most one yields an error.
pub proof fn law_error_reported_once(run: StreamRun, i: int, j: int)
    requires
        run.valid(),
        0 <= i < j < run.calls.len(),
        run.calls[i].yields_error(),
    ensures
        !run.calls[j].yields_error(),
{
    assert(run.calls[i].leads(run.states[i], run.states[i + 1]));
    assert(run.states[i + 1].emitted_terminal_error);
    law_end_lasts(run, i + 1, j);
    assert(run.calls[j].leads(run.states[j], run.states[j + 1]));
}

/// After the error, or after the stream was closed, the reader gets the packets that are still
/// there and then the end: nothing is driven any more on its behalf.
pub proof fn law_end_follows_error(run: StreamRun, i: int, j: int)
    requires
        run.valid(),
        0 <= i < j < run.calls.len(),
        run.calls[i].yields_error() || (run.calls[i] matches StreamCall::Close { step, .. } && step
            is Done),
    ensures
        run.calls[j] matches StreamCall::Next { drive: None, step } ==> if run.states[j].inbound_queue@.len()
            > 0 {
            step is Packet
        } else {
            step is End
        },
{
    assert(run.calls[i].leads(run.states[i], run.states[i + 1]));
    assert(run.states[i + 1].emitted_terminal_error);
    law_end_lasts(run, i + 1, j);
    assert(run.calls[j].leads(run.states[j], run.states[j + 1]));
}

/// A flush keeps its promise: when it reports that all is flushed, or the stream that it is closed,
/// the outgoing queue is empty, and every packet that the sink took so far is done with.
pub proof fn law_flushed_means_settled(run: StreamRun, i: int)
    requires
        run.valid(),
        0 <= i < run.calls.len(),
        (run.calls[i] matches StreamCall::Flush { step, .. } && step is Done) || (
        run.calls[i] matches StreamCall::Close { step, .. } && step is Done),
    ensures
        run.states[i + 1].outbound_queue@.len() == 0,
        run.settled(i + 1) == run.accepted(i + 1),
{
    assert(run.calls[i].leads(run.states[i], run.states[i + 1]));
    law_outbound_in_order(run, i + 1);
    assert(run.settled(i + 1) =~= run.accepted(i + 1));
}

/// Sending what the transport has left does not fill the queue again: between the step that asks
/// for it, with call `k`, and the call `i` that is told of it, with nothing but sending in between,
/// the outgoing queue stays empty.
pub proof fn law_send_step_finds_queue_empty(run: StreamRun, k: int, i: int)
    requires
        run.valid(),
        0 <= k < i < run.states.len(),
        run.calls[k] matches StreamCall::Flush { step, .. } && step is Send,
        forall|x: int| k < x < i ==> (#[trigger] run.calls[x]) is Send,
    ensures
        run.states[i].flush_expects(FlushEvent::Sent(PassPoll::Pending)),
        run.states[i].outbound_queue@.len() == 0,
    decreases i - k,
{
    assert(run.calls[k].leads(run.states[k], run.states[k + 1]));
    if k + 1 < i {
        law_send_step_finds_queue_empty(run, k, i - 1);
        assert(run.calls[i - 1] is Send);
        assert(run.calls[i - 1].leads(run.states[i - 1], run.states[i]));
    }
}

/// A stream that was closed, or that failed, takes no packet any more: the answer is that it is
/// closed.
pub proof fn law_closed_refuses(run: StreamRun, i: int, j: int)
    requires
        run.valid(),
        0 <= i <= j < run.calls.len(),
        run.states[i].state == PacketSessionState::Closed,
    ensures
        run.calls[j] matches StreamCall::Start { result, .. } ==> result == Err::<(), StreamError>(
            StreamError::Closed,
        ),
        run.calls[j] matches StreamCall::Ready { drive: None, step } ==> step == ReadyStep::Failed(
            StreamError::Closed,
        ),
{
    law_end_lasts(run, i, j);
    assert(run.calls[j].leads(run.states[j], run.states[j + 1]));
}

/// A packet is taken right after there was found to be room for it, without driving the session.
pub proof fn law_ready_means_room(run: StreamRun, i: int)
    requires
        run.valid(),
        0 <= i < run.calls.len() - 1,
        run.calls[i] matches StreamCall::Ready { drive: None, step } && step is Ready,
    ensures
        run.calls[i + 1] matches StreamCall::Start { result, .. } ==> result is Ok,
{
    assert(run.calls[i].leads(run.states[i], run.states[i + 1]));
    assert(run.calls[i + 1].leads(run.states[i + 1], run.states[i + 2]));
}

impl StreamCall {
    /// The call is part of driving the session.
    pub open spec fn drives(self) -> bool {
        self is Queue || self is Send || self is Inbound
    }
}

/// Driving the session closes nothing.
proof fn lemma_drive_keeps_open(run: StreamRun, k: int, n: int)
    requires
        run.valid(),
        0 <= k <= n < run.states.len(),
        forall|x: int| k <= x < n ==> (#[trigger] run.calls[x]).drives(),
    ensures
        run.states[n].state == run.states[k].state,
        run.states[n].terminal_error == run.states[k].terminal_error,
    decreases n - k,
{
    if k < n {
        lemma_drive_keeps_open(run, k, n - 1);
        assert(run.calls[n - 1].drives());
        assert(run.calls[n - 1].leads(run.states[n - 1], run.states[n]));
    }
}

/// A packet is taken right after there was found to be room for it by driving the session: call
/// `k` asked for that, what follows until call `i` is the drive, and call `i` found room.
pub proof fn law_ready_after_drive_means_room(run: StreamRun, k: int, i: int)
    requires
        run.valid(),
        0 <= k < i < run.calls.len() - 1,
        run.calls[k] matches StreamCall::Ready { drive: None, step } && step is Drive,
        forall|x: int| k < x < i ==> (#[trigger] run.calls[x]).drives(),
        run.calls[i] matches StreamCall::Ready { drive: Some(DrivePoll::Done), step } && step
            is Ready,
    ensures
        run.calls[i + 1] matches StreamCall::Start { result, .. } ==> result is Ok,
{
    assert(run.calls[k].leads(run.states[k], run.states[k + 1]));
    lemma_drive_keeps_open(run, k + 1, i);
    assert(run.calls[i].leads(run.states[i], run.states[i + 1]));
    assert(run.calls[i + 1].leads(run.states[i + 1], run.states[i + 2]));
}

/// What is sent is received: the datagram that a stream of the first flow makes of a packet that
/// is not empty gives the same packet to a stream.
pub proof fn law_stream_round_trip(
    sender: MasquePacketStream,
    packet: Vec<u8>,
    sent: MasquePacketStream,
    dgram: Vec<u8>,
    receiver: MasquePacketStream,
    after: MasquePacketStream,
    step: InboundStep,
    progressed: bool,
)
    requires
        sender.flow_prefix@ == flow_prefix(INBOUND_FLOW_ID as nat),
        packet@.len() > 0,
        sender.queue_follows(
            progressed,
            QueueEvent::Prepared(Some(packet)),
            sent,
            progressed,
            QueueStep::Hand(dgram),
        ),
        receiver.inbound_follows(progressed, InboundEvent::Datagram(dgram), after, true, step),
    ensures
        step matches InboundStep::Examine(arrived) && arrived@ == packet@,
{
    law_datagram_round_trip(INBOUND_FLOW_ID as nat, INBOUND_FLOW_ID as nat, packet@);
}

} // verus!
