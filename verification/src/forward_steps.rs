//! What a tunnel session does about each event, in terms of what happened before.
use crate::clock::{sleep_length, Duration};
use crate::datagram::packet_offset;
use crate::forward::{ForwardAction, ForwardEvent, ForwardPhase, Source, TunnelSession, TunnelStats};
use crate::forward_laws::{
    law_arrivals_in_order, law_departures_in_order, law_no_arrival_left_behind,
    law_verdicts_on_arrivals, lemma_queue_empty_otherwise, packet_views, ForwardRun,
};
use crate::tunnel::TunnelError;
use vstd::prelude::*;

verus! {

/// The event tells how the action ended.
pub open spec fn answers(action: ForwardAction, event: ForwardEvent) -> bool {
    match action {
        ForwardAction::Prepare(_) => event is Prepared,
        ForwardAction::Hand(_) => event is Handed,
        ForwardAction::ComposeTooLarge { .. } => event is Composed,
        ForwardAction::Write(_) => event is Written || event is WriteFailed,
        ForwardAction::Wait => event is UdpBatch || event is UdpFailed || event is Batch || event
            is BatchFailed || event is TimerFired || event is StatsTick,
        ForwardAction::DeliverBatch(_) => event is Delivered,
        ForwardAction::Wake(_) => event is Woken || event is KeepaliveFailed,
        ForwardAction::Report(_) => event is Reported,
        ForwardAction::PollH3 => event is H3,
        ForwardAction::Receive => event is Datagram || event is NoDatagram || event
            is DatagramFailed,
        ForwardAction::Examine(_) => event is Examined,
        ForwardAction::Flush => event is Flushed || event is FlushFailed,
        ForwardAction::CheckClosed => event is Closed,
        ForwardAction::Finish => false,
        ForwardAction::Fail(_) => false,
    }
}

impl ForwardRun {
    /// The last action before event `i`.
    pub open spec fn action_before(self, i: int) -> ForwardAction {
        if i <= 0 {
            self.first
        } else {
            self.actions[i - 1]
        }
    }

    /// The device has given packets in the first `n` events. From then on the packets that are sent
    /// are the device's; those that waited for the session are gone.
    pub open spec fn device_spoke(self, n: int) -> bool {
        exists|k: int| 0 <= k < n && (#[trigger] self.events[k]) is Batch
    }

    /// How many packets of the device were dropped in the first `n` events: they could not be
    /// prepared, or the transport took them neither then nor later.
    pub open spec fn device_lost(self, n: int) -> int
        decreases n,
    {
        if n <= 0 {
            0
        } else {
            self.device_lost(n - 1) + if self.device_spoke(n - 1) && (self.events[n - 1]
                == ForwardEvent::Prepared(None) || (self.events[n - 1] matches ForwardEvent::Handed(
                outcome,
            ) && (outcome is Done || outcome is Failed))) {
                1int
            } else {
                0
            }
        }
    }

    /// What is done after event `i` once a packet is done with: the next is prepared; after the last
    /// of those that waited for the session it waits, and after the last of the device's it sees to
    /// HTTP/3.
    pub open spec fn sends_on(self, i: int) -> bool {
        if self.prepared(i).len() < self.given(i + 1).len() {
            self.actions[i] == ForwardAction::Prepare(self.given(i + 1)[self.prepared(i).len() as int])
        } else if self.device_spoke(i + 1) {
            self.actions[i] is PollH3
        } else {
            self.actions[i] is Wait
        }
    }
}

/// The state that an action leaves takes in what answers the action.
pub(crate) proof fn lemma_step_answers(
    before: TunnelSession,
    event: ForwardEvent,
    after: TunnelSession,
    action: ForwardAction,
    answer: ForwardEvent,
)
    requires
        before.expects(event),
        before.follows(event, after, action),
    ensures
        after.expects(answer) <==> answers(action, answer),
{
}

/// After each action the session takes in exactly what answers it: every answer, and nothing else.
pub proof fn law_answers_are_taken_in(run: ForwardRun, i: int, event: ForwardEvent)
    requires
        run.valid(),
        0 <= i < run.states.len(),
    ensures
        run.states[i].expects(event) <==> answers(run.action_before(i), event),
{
    if i > 0 {
        assert(run.states[i - 1].expects(run.events[i - 1]));
        lemma_step_answers(
            run.states[i - 1],
            run.events[i - 1],
            run.states[i],
            run.actions[i - 1],
            event,
        );
    }
}

/// What the state remembers of the run.
proof fn lemma_memory(run: ForwardRun, n: int)
    requires
        run.valid(),
        0 <= n < run.states.len(),
    ensures
        run.states[n].keepalive == run.states[0].keepalive,
        run.states[n].flow_id == run.states[0].flow_id,
        match run.states[n].phase {
            ForwardPhase::Preparing(source) => (source == Source::Device) == run.device_spoke(n),
            ForwardPhase::Handing(source) => (source == Source::Device) == run.device_spoke(n)
                && run.sendable(n).len() > 0 && run.states[n].current@ == run.sendable(n).last(),
            ForwardPhase::Composing => run.device_spoke(n),
            ForwardPhase::WritingReply => run.device_spoke(n) && n > 0 && run.events[n - 1]
                is Composed,
            ForwardPhase::WritingFull => n > 0 && run.events[n - 1] is Examined,
            ForwardPhase::WritingLast => n > 0 && (run.events[n - 1] is NoDatagram
                || run.events[n - 1] is DatagramFailed),
            _ => true,
        },
        run.states[n].stats.dropped == run.device_lost(n),
    decreases n,
{
    if n > 0 {
        lemma_memory(run, n - 1);
        lemma_queue_empty_otherwise(run, n - 1);
        let before = run.states[n - 1];
        let event = run.events[n - 1];
        assert(before.expects(event));
        assert(before.follows(event, run.states[n], run.actions[n - 1]));
        if run.device_spoke(n - 1) {
            let k = choose|k: int| 0 <= k < n - 1 && (#[trigger] run.events[k]) is Batch;
            assert(run.events[k] is Batch);
            assert(run.device_spoke(n));
        } else if run.device_spoke(n) {
            let k = choose|k: int| 0 <= k < n && (#[trigger] run.events[k]) is Batch;
            assert(k == n - 1);
        }
        if event is Batch {
            assert(run.device_spoke(n));
        }
    }
}

/// When the sleep is over, each timer that ran out is served, and no other: the transport is told of
/// its timer exactly if it had one that was not longer than the keepalive period, and made to send a
/// keepalive exactly if its timer was not shorter than that period, or it had none. Nothing else
/// wakes it.
pub proof fn law_wake_serves_the_timers(run: ForwardRun, i: int)
    requires
        run.valid(),
        0 <= i < run.events.len(),
    ensures
        run.events[i] matches ForwardEvent::TimerFired { quic } ==> {
            &&& run.actions[i] matches ForwardAction::Wake(wakeup)
            &&& wakeup.expire <==> (quic matches Some(d) && d@ <= run.states[0].keepalive@)
            &&& wakeup.keepalive <==> (quic matches Some(d) ==> run.states[0].keepalive@ <= d@)
        },
        run.actions[i] is Wake ==> run.events[i] is TimerFired,
        run.events[i] is Woken ==> run.actions[i] is PollH3,
        run.events[i] matches ForwardEvent::KeepaliveFailed(text) ==> run.actions[i]
            == ForwardAction::Fail(TunnelError::Keepalive(text)),
{
    lemma_memory(run, i);
    assert(run.states[i].expects(run.events[i]));
    assert(run.states[i].follows(run.events[i], run.states[i + 1], run.actions[i]));
}

/// How long the session sleeps: as long as it may, which is until the first of its timers runs out.
pub proof fn law_sleeps_until_the_first_timer(quic: Option<Duration>, keepalive: Duration)
    ensures
        sleep_length(quic, keepalive)@ <= keepalive@,
        quic matches Some(d) ==> sleep_length(quic, keepalive)@ <= d@,
        sleep_length(quic, keepalive) == keepalive || quic == Some(sleep_length(quic, keepalive)),
{
}

/// While it waits, the session serves whatever comes: datagrams go to the transport, all that
/// arrived; packets of the device are sent; the user is shown the counters as they are. A device
/// that is closed, and a device or a socket that fails, ends the session.
pub proof fn law_whatever_comes_is_served(run: ForwardRun, i: int)
    requires
        run.valid(),
        0 <= i < run.events.len(),
    ensures
        match run.events[i] {
            ForwardEvent::UdpBatch(count) => run.actions[i] == ForwardAction::DeliverBatch(count),
            ForwardEvent::Delivered => run.actions[i] is PollH3,
            ForwardEvent::Batch(packets) => if packets@.len() == 0 {
                run.actions[i] == ForwardAction::Fail(TunnelError::DeviceClosed)
            } else {
                run.actions[i] == ForwardAction::Prepare(packets@[0])
            },
            ForwardEvent::StatsTick { elapsed, lost, retrans } => {
                &&& run.actions[i] matches ForwardAction::Report(line)
                &&& line@ == run.states[i].stats.line(elapsed, lost as nat, retrans as nat)
            },
            ForwardEvent::Reported => run.actions[i] is PollH3,
            ForwardEvent::UdpFailed(text) => run.actions[i] == ForwardAction::Fail(
                TunnelError::Udp(text),
            ),
            ForwardEvent::BatchFailed(text) => run.actions[i] == ForwardAction::Fail(
                TunnelError::Read(text),
            ),
            _ => !(run.actions[i] is DeliverBatch) && !(run.actions[i] is Report),
        },
{
    assert(run.states[i].expects(run.events[i]));
    assert(run.states[i].follows(run.events[i], run.states[i + 1], run.actions[i]));
}

/// Packets are sent one after the other, until all that were given are done with. One that could not
/// be prepared, or that the transport did not take, holds up none of the others.
pub proof fn law_sending_goes_on(run: ForwardRun, i: int)
    requires
        run.valid(),
        0 <= i < run.events.len(),
    ensures
        run.events[i] matches ForwardEvent::Prepared(None) ==> run.sends_on(i),
        run.events[i] matches ForwardEvent::Prepared(Some(_)) ==> run.actions[i] is Hand,
        run.events[i] matches ForwardEvent::Handed(outcome) ==> if outcome is Failed
            && run.device_spoke(i) {
            run.actions[i] is ComposeTooLarge
        } else {
            run.sends_on(i)
        },
        run.events[i] matches ForwardEvent::Composed(None) ==> run.sends_on(i),
        run.events[i] matches ForwardEvent::Composed(Some(_)) ==> run.actions[i] is Write,
        run.events[i] is Written && (i > 0 && run.events[i - 1] is Composed) ==> run.sends_on(i),
{
    lemma_memory(run, i);
    lemma_memory(run, i + 1);
    lemma_queue_empty_otherwise(run, i);
    law_departures_in_order(run, i);
    law_departures_in_order(run, i + 1);
    let event = run.events[i];
    assert(run.states[i].expects(event));
    assert(run.states[i].follows(event, run.states[i + 1], run.actions[i]));
    if run.device_spoke(i) {
        let k = choose|k: int| 0 <= k < i && (#[trigger] run.events[k]) is Batch;
        assert(run.events[k] is Batch);
        assert(run.device_spoke(i + 1));
    } else if run.device_spoke(i + 1) && !(event is Batch) {
        let k = choose|k: int| 0 <= k < i + 1 && (#[trigger] run.events[k]) is Batch;
        assert(run.device_spoke(i));
    }
    if i > 0 && run.events[i - 1] is Composed {
        law_answers_are_taken_in(run, i, event);
        lemma_memory(run, i - 1);
        assert(run.states[i - 1].expects(run.events[i - 1]));
        assert(run.states[i - 1].follows(run.events[i - 1], run.states[i], run.actions[i - 1]));
    }
    if !(event is Batch) {
        assert(run.given(i + 1) =~= run.given(i));
        if run.states[i].outgoing@.len() > 0 {
            assert(run.given(i)[run.prepared(i).len() as int] == run.states[i].outgoing@[0]);
        }
    }
}

/// The sender of a packet of the device that the transport would not take is told so: about that
/// packet, all of it, as it was prepared for sending, and that 1,280 bytes get through. The reply
/// that is composed goes to the device, alone and behind ten empty bytes.
pub proof fn law_sender_is_told(run: ForwardRun, i: int)
    requires
        run.valid(),
        0 <= i < run.events.len(),
    ensures
        run.actions[i] is ComposeTooLarge <==> (run.device_spoke(i) && (run.events[i] matches ForwardEvent::Handed(
            outcome,
        ) && outcome is Failed)),
        run.actions[i] matches ForwardAction::ComposeTooLarge { packet, mtu } ==> mtu == 1_280
            && run.sendable(i).len() > 0 && packet@ == run.sendable(i).last(),
        run.events[i] matches ForwardEvent::Composed(Some(reply)) ==> {
            &&& run.actions[i] matches ForwardAction::Write(batch)
            &&& batch@.len() == 1
            &&& batch@[0]@.len() == reply@.len() + 10
            &&& batch@[0]@.skip(10) == reply@
            &&& forall|k: int| 0 <= k < 10 ==> #[trigger] batch@[0]@[k] == 0
        },
{
    lemma_memory(run, i);
    assert(run.states[i].expects(run.events[i]));
    assert(run.states[i].follows(run.events[i], run.states[i + 1], run.actions[i]));
    if let ForwardEvent::Composed(Some(reply)) = run.events[i] {
        if let ForwardAction::Write(batch) = run.actions[i] {
            assert(batch@[0]@.skip(10) =~= reply@);
        }
    }
}

/// What the counters hold of the device's packets that were dropped, and of which packet each count
/// of what was sent is: the one that was prepared last.
pub proof fn law_drops_counted(run: ForwardRun, n: int)
    requires
        run.valid(),
        0 <= n < run.states.len(),
    ensures
        run.states[n].stats.dropped == run.device_lost(n),
        n < run.events.len() && run.events[n] is Handed ==> run.sendable(n).len() > 0
            && run.states[n].current@ == run.sendable(n).last(),
{
    lemma_memory(run, n);
    if n < run.events.len() {
        assert(run.states[n].expects(run.events[n]));
    }
}

/// What room the counters must have is that for the packet at stake, and for nothing else: the one that
/// was prepared last when it was handed over, and the one that arrived last when it was looked at.
pub proof fn law_room_is_for_the_packet_at_stake(run: ForwardRun, i: int, event: ForwardEvent)
    requires
        run.valid(),
        0 <= i < run.states.len(),
        run.states[i].expects(event),
    ensures
        event is Handed ==> run.states[i].at_stake(event) == run.sendable(i).last().len(),
        event is Examined ==> run.states[i].at_stake(event) == run.arrived(i).last().len(),
        !(event is Handed) && !(event is Examined) ==> run.states[i].at_stake(event) == 0,
{
    lemma_memory(run, i);
    law_verdicts_on_arrivals(run, i);
}

/// After whatever came is served, nothing is left undone: HTTP/3 is asked for events until it has
/// none, then the transport for datagrams until it has none, each packet of the flow is looked at,
/// whole, what was let in is written to the device, the transport's packets are sent, and then the
/// session ends if the connection is closed, and else waits again.
pub proof fn law_nothing_is_left_undone(run: ForwardRun, i: int)
    requires
        run.valid(),
        0 <= i < run.events.len(),
    ensures
        match run.events[i] {
            ForwardEvent::H3(report) => if report is Event {
                run.actions[i] is PollH3
            } else {
                run.actions[i] is Receive
            },
            ForwardEvent::Datagram(dgram) => match packet_offset(
                dgram@,
                run.states[0].flow_id as nat,
            ) {
                Some(offset) => run.actions[i] matches ForwardAction::Examine(packet) && packet@
                    == dgram@.skip(offset as int),
                None => run.actions[i] is Receive,
            },
            ForwardEvent::Examined(valid) => if valid && run.admitted(i).len() + 1
                - run.written(i).len() == 128 {
                run.actions[i] matches ForwardAction::Write(batch) && batch@.len() == 128
            } else {
                run.actions[i] is Receive
            },
            ForwardEvent::NoDatagram => if run.admitted(i).len() > run.written(i).len() {
                run.actions[i] matches ForwardAction::Write(batch) && batch@.len() == run.admitted(
                    i,
                ).len() - run.written(i).len()
            } else {
                run.actions[i] is Flush
            },
            ForwardEvent::DatagramFailed => if run.admitted(i).len() > run.written(i).len() {
                run.actions[i] matches ForwardAction::Write(batch) && batch@.len() == run.admitted(
                    i,
                ).len() - run.written(i).len()
            } else {
                run.actions[i] is Flush
            },
            ForwardEvent::Written => i > 0 && if run.events[i - 1] is Examined {
                run.actions[i] is Receive
            } else if run.events[i - 1] is Composed {
                run.sends_on(i)
            } else {
                run.actions[i] is Flush
            },
            ForwardEvent::WriteFailed(text) => run.actions[i] == ForwardAction::Fail(
                TunnelError::Write(text),
            ),
            ForwardEvent::Flushed => run.actions[i] is CheckClosed,
            ForwardEvent::FlushFailed(error) => run.actions[i] == ForwardAction::Fail(
                TunnelError::Burst(error),
            ),
            ForwardEvent::Closed(closed) => if closed {
                run.actions[i] is Finish
            } else {
                run.actions[i] is Wait
            },
            _ => !(run.actions[i] is Flush) && !(run.actions[i] is Examine) && !(run.actions[i]
                is CheckClosed) && !(run.actions[i] is Finish),
        },
{
    lemma_memory(run, i);
    law_verdicts_on_arrivals(run, i);
    law_arrivals_in_order(run, i);
    law_sending_goes_on(run, i);
    lemma_queue_empty_otherwise(run, i);
    law_no_arrival_left_behind(run, i);
    let stage = |packet: Seq<u8>| crate::datagram::staged_packet(packet);
    assert(run.admitted(i).map_values(stage).len() == run.admitted(i).len());
    assert(packet_views(run.states[i].staged@).len() == run.states[i].staged@.len());
    assert(run.states[i].expects(run.events[i]));
    assert(run.states[i].follows(run.events[i], run.states[i + 1], run.actions[i]));
}

/// The counters count, as long as there is room: one more packet and its bytes, and nothing else.
/// And there is room exactly while that can be.
pub proof fn law_counters_count(stats: TunnelStats, len: nat)
    ensures
        stats.room(len as int) <==> {
            &&& stats.tx_packets + 1 <= u64::MAX
            &&& stats.rx_packets + 1 <= u64::MAX
            &&& stats.dropped + 1 <= u64::MAX
            &&& stats.tx_bytes + len <= u64::MAX
            &&& stats.rx_bytes + len <= u64::MAX
        },
        stats.room(len as int) ==> {
            let sent = stats.sent(len as int);
            let received = stats.received(len as int);
            let lost = stats.lost();
            &&& sent.tx_packets == stats.tx_packets + 1 && sent.tx_bytes == stats.tx_bytes + len
            &&& sent.rx_packets == stats.rx_packets && sent.rx_bytes == stats.rx_bytes
            &&& sent.dropped == stats.dropped
            &&& received.rx_packets == stats.rx_packets + 1 && received.rx_bytes == stats.rx_bytes
                + len
            &&& received.tx_packets == stats.tx_packets && received.tx_bytes == stats.tx_bytes
            &&& received.dropped == stats.dropped
            &&& lost.dropped == stats.dropped + 1
            &&& lost.tx_packets == stats.tx_packets && lost.tx_bytes == stats.tx_bytes
            &&& lost.rx_packets == stats.rx_packets && lost.rx_bytes == stats.rx_bytes
        },
{
}

} // verus!
