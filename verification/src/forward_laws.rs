//! What holds of every run of a tunnel session, whatever happens outside.
use crate::datagram::{
    flow_prefix, law_datagram_round_trip, packet_offset, staged_packet, TUN_BATCH_SIZE,
};
use crate::drive::DatagramOutcome;
use crate::forward::{
    ForwardAction, ForwardEvent, ForwardPhase, Source, TunnelSession,
};
use vstd::prelude::*;

verus! {

/// The states that a session went through, the events in between and what it said to do; what it
/// said to do at first, and the packets that waited for it.
pub struct ForwardRun {
    pub pending: Seq<Vec<u8>>,
    pub first: ForwardAction,
    pub states: Seq<TunnelSession>,
    pub events: Seq<ForwardEvent>,
    pub actions: Seq<ForwardAction>,
}

/// The bytes of each packet.
pub open spec fn packet_views(packets: Seq<Vec<u8>>) -> Seq<Seq<u8>> {
    packets.map_values(|packet: Vec<u8>| packet@)
}

impl ForwardRun {
    /// Each state follows from the one before, and the first is that of a new session.
    pub open spec fn valid(self) -> bool {
        &&& self.states.len() == self.events.len() + 1
        &&& self.actions.len() == self.events.len()
        &&& self.states[0].begun(
            self.states[0].flow_id as nat,
            self.states[0].keepalive,
            self.pending,
            self.first,
        )
        &&& forall|i: int| #![trigger self.events[i]]
            0 <= i < self.events.len() ==> self.states[i].expects(self.events[i])
                && self.states[i].stats.room(self.states[i].at_stake(self.events[i]))
                && self.states[i].follows(self.events[i], self.states[i + 1], self.actions[i])
    }

    /// The lengths of the packets that the transport took in the first `n` events.
    pub open spec fn sent(self, n: int) -> Seq<nat>
        decreases n,
    {
        if n <= 0 {
            Seq::empty()
        } else {
            self.sent(n - 1) + match self.events[n - 1] {
                ForwardEvent::Handed(DatagramOutcome::Sent) => seq![
                    self.states[n - 1].current@.len(),
                ],
                _ => Seq::empty(),
            }
        }
    }

    /// The packets of the session's flow in the datagrams of the first `n` events.
    pub open spec fn arrived(self, n: int) -> Seq<Seq<u8>>
        decreases n,
    {
        if n <= 0 {
            Seq::empty()
        } else {
            self.arrived(n - 1) + match self.events[n - 1] {
                ForwardEvent::Datagram(dgram) => match packet_offset(
                    dgram@,
                    self.states[0].flow_id as nat,
                ) {
                    Some(offset) => seq![dgram@.skip(offset as int)],
                    None => Seq::empty(),
                },
                _ => Seq::empty(),
            }
        }
    }

    /// The packets that a verdict was passed on in the first `n` events.
    pub open spec fn judged(self, n: int) -> Seq<Seq<u8>>
        decreases n,
    {
        if n <= 0 {
            Seq::empty()
        } else {
            self.judged(n - 1) + match self.events[n - 1] {
                ForwardEvent::Examined(_) => seq![self.states[n - 1].examined@],
                _ => Seq::empty(),
            }
        }
    }

    /// The packet that is being looked at after the first `n` events.
    pub open spec fn under_way(self, n: int) -> Seq<Seq<u8>> {
        if self.states[n].phase is Examining {
            seq![self.states[n].examined@]
        } else {
            Seq::empty()
        }
    }

    /// The packets that were let in in the first `n` events: those with a good verdict.
    pub open spec fn admitted(self, n: int) -> Seq<Seq<u8>>
        decreases n,
    {
        if n <= 0 {
            Seq::empty()
        } else {
            self.admitted(n - 1) + match self.events[n - 1] {
                ForwardEvent::Examined(true) => seq![self.states[n - 1].examined@],
                _ => Seq::empty(),
            }
        }
    }

    /// The packets that arrived and went to the device in the first `n` events, each behind its
    /// header. Replies to the senders of packets are not among them.
    pub open spec fn written(self, n: int) -> Seq<Seq<u8>>
        decreases n,
    {
        if n <= 0 {
            Seq::empty()
        } else {
            self.written(n - 1) + match self.actions[n - 1] {
                ForwardAction::Write(batch) => if self.states[n - 1].phase is Composing {
                    Seq::empty()
                } else {
                    packet_views(batch@)
                },
                _ => Seq::empty(),
            }
        }
    }

    /// The packets that waited for the session, and those that the device gave in the first `n`
    /// events.
    pub open spec fn given(self, n: int) -> Seq<Vec<u8>>
        decreases n,
    {
        if n <= 0 {
            self.pending
        } else {
            self.given(n - 1) + match self.events[n - 1] {
                ForwardEvent::Batch(packets) => packets@,
                _ => Seq::empty(),
            }
        }
    }

    /// The packets that were asked to be prepared for sending, at first and in the first `n` events.
    pub open spec fn prepared(self, n: int) -> Seq<Vec<u8>>
        decreases n,
    {
        if n <= 0 {
            match self.first {
                ForwardAction::Prepare(packet) => seq![packet],
                _ => Seq::empty(),
            }
        } else {
            self.prepared(n - 1) + match self.actions[n - 1] {
                ForwardAction::Prepare(packet) => seq![packet],
                _ => Seq::empty(),
            }
        }
    }

    /// The packets as they were prepared in the first `n` events, where they could be.
    pub open spec fn sendable(self, n: int) -> Seq<Seq<u8>>
        decreases n,
    {
        if n <= 0 {
            Seq::empty()
        } else {
            self.sendable(n - 1) + match self.events[n - 1] {
                ForwardEvent::Prepared(Some(packet)) => seq![packet@],
                _ => Seq::empty(),
            }
        }
    }

    /// The datagrams that the transport was handed in the first `n` events.
    pub open spec fn offered(self, n: int) -> Seq<Seq<u8>>
        decreases n,
    {
        if n <= 0 {
            Seq::empty()
        } else {
            self.offered(n - 1) + match self.actions[n - 1] {
                ForwardAction::Hand(dgram) => seq![dgram@],
                _ => Seq::empty(),
            }
        }
    }

    /// How many packets of the device were prepared for sending in the first `n` events.
    pub open spec fn device_taken(self, n: int) -> int
        decreases n,
    {
        if n <= 0 {
            0
        } else {
            self.device_taken(n - 1) + if self.actions[n - 1] is Prepare && self.states[n].phase
                == ForwardPhase::Preparing(Source::Device) {
                1int
            } else {
                0
            }
        }
    }

    /// How many packets of the device the transport took, or refused because the peer takes no
    /// datagrams, in the first `n` events.
    pub open spec fn device_passed(self, n: int) -> int
        decreases n,
    {
        if n <= 0 {
            0
        } else {
            self.device_passed(n - 1) + if self.states[n - 1].phase == ForwardPhase::Handing(
                Source::Device,
            ) && (self.events[n - 1] matches ForwardEvent::Handed(outcome) && (outcome is Sent
                || outcome is InvalidState)) {
                1int
            } else {
                0
            }
        }
    }
}

/// The sum of lengths.
pub open spec fn total(lengths: Seq<nat>) -> nat
    decreases lengths.len(),
{
    if lengths.len() == 0 {
        0
    } else {
        total(lengths.drop_last()) + lengths.last()
    }
}

/// The lengths of packets.
pub open spec fn lengths(packets: Seq<Seq<u8>>) -> Seq<nat> {
    packets.map_values(|packet: Seq<u8>| packet.len())
}

/// One more length adds to the sum.
proof fn lemma_total_push(s: Seq<nat>, x: nat)
    ensures
        total(s + seq![x]) == total(s) + x,
{
    assert((s + seq![x]).drop_last() =~= s);
}

/// Packets wait in the outgoing queue only while packets are sent, or after a failure.
pub(crate) proof fn lemma_queue_empty_otherwise(run: ForwardRun, n: int)
    requires
        run.valid(),
        0 <= n < run.states.len(),
    ensures
        run.states[n].wf(),
        run.states[n].outgoing@.len() > 0 ==> match run.states[n].phase {
            ForwardPhase::Preparing(_) => true,
            ForwardPhase::Handing(_) => true,
            ForwardPhase::Composing => true,
            ForwardPhase::WritingReply => true,
            ForwardPhase::Over => true,
            _ => false,
        },
    decreases n,
{
    if n > 0 {
        lemma_queue_empty_otherwise(run, n - 1);
        assert(run.states[n - 1].follows(run.events[n - 1], run.states[n], run.actions[n - 1]));
        assert(run.states[n - 1].expects(run.events[n - 1]));
    }
}

/// What is counted as sent is what the transport took.
pub proof fn law_sent_counted(run: ForwardRun, n: int)
    requires
        run.valid(),
        0 <= n < run.states.len(),
    ensures
        run.states[n].stats.tx_packets == run.sent(n).len(),
        run.states[n].stats.tx_bytes == total(run.sent(n)),
    decreases n,
{
    if n > 0 {
        law_sent_counted(run, n - 1);
        let before = run.states[n - 1];
        let event = run.events[n - 1];
        assert(before.follows(event, run.states[n], run.actions[n - 1]));
        assert(before.expects(event));
        if let ForwardEvent::Handed(DatagramOutcome::Sent) = event {
            lemma_total_push(run.sent(n - 1), before.current@.len());
        } else {
            assert(run.sent(n) =~= run.sent(n - 1));
        }
    }
}

/// Verdicts are passed on what came in, and on nothing else: the packets that a verdict was passed
/// on and then the one under way are, in order, the packets of the session's flow in the datagrams.
pub proof fn law_verdicts_on_arrivals(run: ForwardRun, n: int)
    requires
        run.valid(),
        0 <= n < run.states.len(),
    ensures
        run.states[n].flow_id == run.states[0].flow_id,
        run.arrived(n) == run.judged(n) + run.under_way(n),
    decreases n,
{
    if n > 0 {
        law_verdicts_on_arrivals(run, n - 1);
        let before = run.states[n - 1];
        let event = run.events[n - 1];
        assert(before.follows(event, run.states[n], run.actions[n - 1]));
        assert(before.expects(event));
        assert(run.arrived(n) =~= run.judged(n) + run.under_way(n));
    } else {
        assert(run.arrived(n) =~= run.judged(n) + run.under_way(n));
    }
}

/// What the transport is handed: for each packet that could be prepared, once and in order, the
/// flow's prefix and the packet.
pub proof fn law_offered_in_order(run: ForwardRun, n: int)
    requires
        run.valid(),
        0 <= n < run.states.len(),
    ensures
        run.offered(n) == run.sendable(n).map_values(
            |packet: Seq<u8>| flow_prefix(run.states[0].flow_id as nat) + packet,
        ),
    decreases n,
{
    let framed = |packet: Seq<u8>| flow_prefix(run.states[0].flow_id as nat) + packet;
    if n > 0 {
        law_offered_in_order(run, n - 1);
        law_verdicts_on_arrivals(run, n - 1);
        lemma_queue_empty_otherwise(run, n - 1);
        let before = run.states[n - 1];
        let event = run.events[n - 1];
        assert(before.follows(event, run.states[n], run.actions[n - 1]));
        assert(before.expects(event));
        assert(run.offered(n) =~= run.sendable(n).map_values(framed));
    } else {
        assert(run.offered(n) =~= run.sendable(n).map_values(framed));
    }
}

/// What is counted as received is what was let in.
pub proof fn law_received_counted(run: ForwardRun, n: int)
    requires
        run.valid(),
        0 <= n < run.states.len(),
    ensures
        run.states[n].stats.rx_packets == run.admitted(n).len(),
        run.states[n].stats.rx_bytes == total(lengths(run.admitted(n))),
    decreases n,
{
    if n > 0 {
        law_received_counted(run, n - 1);
        let before = run.states[n - 1];
        let event = run.events[n - 1];
        assert(before.follows(event, run.states[n], run.actions[n - 1]));
        assert(before.expects(event));
        if let ForwardEvent::Examined(true) = event {
            let packet = before.examined;
            lemma_total_push(lengths(run.admitted(n - 1)), packet@.len());
            assert(lengths(run.admitted(n)) =~= lengths(run.admitted(n - 1)) + seq![packet@.len()]);
        } else {
            assert(run.admitted(n) =~= run.admitted(n - 1));
        }
    }
}

/// No packet that was let in is lost, doubled or overtaken on its way to the device: those that
/// were written and then those of the batch under way are, in order, those that were let in.
pub proof fn law_arrivals_in_order(run: ForwardRun, n: int)
    requires
        run.valid(),
        0 <= n < run.states.len(),
    ensures
        run.admitted(n).map_values(|packet: Seq<u8>| staged_packet(packet)) == run.written(n)
            + packet_views(run.states[n].staged@),
    decreases n,
{
    let stage = |packet: Seq<u8>| staged_packet(packet);
    if n > 0 {
        law_arrivals_in_order(run, n - 1);
        lemma_queue_empty_otherwise(run, n - 1);
        let before = run.states[n - 1];
        let after = run.states[n];
        let event = run.events[n - 1];
        let action = run.actions[n - 1];
        assert(before.follows(event, after, action));
        assert(before.expects(event));
        let held = packet_views(before.staged@);
        if let ForwardEvent::Examined(true) = event {
            let packet = before.examined;
            assert(run.admitted(n).map_values(stage) =~= run.admitted(n - 1).map_values(stage)
                + seq![staged_packet(packet@)]);
            if before.staged@.len() + 1 == TUN_BATCH_SIZE {
                let batch = action->Write_0;
                assert(packet_views(batch@) =~= held + seq![staged_packet(packet@)]);
                assert(run.written(n) =~= run.written(n - 1) + packet_views(batch@));
                assert(packet_views(after.staged@) =~= Seq::empty());
            } else {
                assert(packet_views(after.staged@) =~= held + seq![staged_packet(packet@)]);
                assert(run.written(n) =~= run.written(n - 1));
            }
        } else {
            assert(run.admitted(n) =~= run.admitted(n - 1));
            if action is Write && !(before.phase is Composing) {
                assert(packet_views(after.staged@) =~= Seq::empty());
                assert(run.written(n) =~= run.written(n - 1) + held);
            } else {
                assert(run.written(n) =~= run.written(n - 1));
                assert(after.staged@ == before.staged@);
            }
        }
        assert(run.admitted(n).map_values(stage) =~= run.written(n) + packet_views(after.staged@));
    } else {
        assert(run.admitted(n).map_values(stage) =~= run.written(n) + packet_views(
            run.states[n].staged@,
        ));
    }
}

/// Nothing that arrived stays behind: whenever the session waits, sends or ends well, all that was
/// let in is written.
pub proof fn law_no_arrival_left_behind(run: ForwardRun, n: int)
    requires
        run.valid(),
        0 <= n < run.states.len(),
    ensures
        run.states[n].staged@.len() > 0 ==> match run.states[n].phase {
            ForwardPhase::Receiving => true,
            ForwardPhase::Examining => true,
            _ => false,
        },
    decreases n,
{
    if n > 0 {
        law_no_arrival_left_behind(run, n - 1);
        assert(run.states[n - 1].follows(run.events[n - 1], run.states[n], run.actions[n - 1]));
        assert(run.states[n - 1].expects(run.events[n - 1]));
    }
}

/// Packets are prepared for sending in the order in which they were given, and none is passed
/// over: those that were prepared and then those in the queue are those that were given.
pub proof fn law_departures_in_order(run: ForwardRun, n: int)
    requires
        run.valid(),
        0 <= n < run.states.len(),
    ensures
        run.given(n) == run.prepared(n) + run.states[n].outgoing@,
    decreases n,
{
    if n > 0 {
        law_departures_in_order(run, n - 1);
        lemma_queue_empty_otherwise(run, n - 1);
        let before = run.states[n - 1];
        let after = run.states[n];
        let event = run.events[n - 1];
        let action = run.actions[n - 1];
        assert(before.follows(event, after, action));
        assert(before.expects(event));
        let arrived = match event {
            ForwardEvent::Batch(packets) => packets@,
            _ => Seq::empty(),
        };
        let queue = before.outgoing@ + arrived;
        if action is Prepare {
            assert(queue =~= seq![queue[0]] + queue.drop_first());
            assert(queue =~= seq![action->Prepare_0] + after.outgoing@);
        } else {
            assert(queue =~= after.outgoing@);
        }
        assert(run.given(n) =~= run.prepared(n - 1) + queue);
        assert(run.given(n) =~= run.prepared(n) + after.outgoing@);
    } else {
        assert(run.given(n) =~= run.prepared(n) + run.states[n].outgoing@);
    }
}

/// Every packet of the device is accounted for: each one that was prepared for sending was taken
/// by the transport, refused because the peer takes no datagrams, counted as dropped, or is the
/// one under way.
pub proof fn law_device_packets_accounted(run: ForwardRun, n: int)
    requires
        run.valid(),
        0 <= n < run.states.len(),
    ensures
        run.device_taken(n) == run.device_passed(n) + run.states[n].stats.dropped + if run.states[n].phase
            == ForwardPhase::Preparing(Source::Device) || run.states[n].phase
            == ForwardPhase::Handing(Source::Device) {
            1int
        } else {
            0
        },
    decreases n,
{
    if n > 0 {
        law_device_packets_accounted(run, n - 1);
        assert(run.states[n - 1].follows(run.events[n - 1], run.states[n], run.actions[n - 1]));
        assert(run.states[n - 1].expects(run.events[n - 1]));
    }
}

/// What is sent is received: the datagram that a session makes of a packet that is not empty gives
/// the same packet to a session of the same flow, and nothing to a session of another.
pub proof fn law_sent_is_received(
    sender: TunnelSession,
    packet: Vec<u8>,
    sent: TunnelSession,
    dgram: Vec<u8>,
    receiver: TunnelSession,
    after: TunnelSession,
    action: ForwardAction,
)
    requires
        sender.wf(),
        sender.phase is Preparing,
        packet@.len() > 0,
        sender.follows(
            ForwardEvent::Prepared(Some(packet)),
            sent,
            ForwardAction::Hand(dgram),
        ),
        receiver.wf(),
        receiver.phase is Receiving,
        receiver.follows(ForwardEvent::Datagram(dgram), after, action),
    ensures
        if receiver.flow_id == sender.flow_id {
            action matches ForwardAction::Examine(arrived) && arrived@ == packet@
        } else {
            action is Receive && after == receiver
        },
{
    law_datagram_round_trip(sender.flow_id as nat, receiver.flow_id as nat, packet@);
}

/// A session ends well only when the connection is closed.
pub proof fn law_ends_when_closed(run: ForwardRun, i: int)
    requires
        run.valid(),
        0 <= i < run.events.len(),
        run.actions[i] is Finish,
    ensures
        run.events[i] == ForwardEvent::Closed(true),
{
    assert(run.states[i].follows(run.events[i], run.states[i + 1], run.actions[i]));
    assert(run.states[i].expects(run.events[i]));
}

/// No batch is empty, and none is larger than the device takes.
pub proof fn law_batches_fit(run: ForwardRun, i: int)
    requires
        run.valid(),
        0 <= i < run.events.len(),
    ensures
        run.actions[i] matches ForwardAction::Write(batch) ==> 1 <= batch@.len() <= TUN_BATCH_SIZE,
{
    lemma_queue_empty_otherwise(run, i);
    assert(run.states[i].follows(run.events[i], run.states[i + 1], run.actions[i]));
    assert(run.states[i].expects(run.events[i]));
}

} // verus!
