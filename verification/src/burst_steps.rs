//! What sending in bursts does about each event, in terms of what happened before.
use crate::burst::{Burst, BurstAction, BurstError, BurstEvent, BurstPhase};
use crate::burst_laws::{lemma_sizes, BurstRun};
use crate::net::SocketAddress;
use vstd::prelude::*;

verus! {

/// The event tells how the action ended. A packet that was made fits the room that it was given.
pub open spec fn answers(action: BurstAction, event: BurstEvent) -> bool {
    match action {
        BurstAction::MakePacket { start, end } => (event matches BurstEvent::Packet { len, .. } && len
            <= end - start) || event is NothingToSend || event is BufferTooShort || event
            is QuicFailed,
        BurstAction::SendSegmented { .. } => event is Sent || event is SendFailed,
        BurstAction::SendPlain { .. } => event is Sent || event is SendFailed,
        BurstAction::Finish => false,
        BurstAction::Fail(_) => false,
    }
}

impl BurstRun {
    /// With which event the first packet of the burst under way was made, after the first `n`
    /// events. A burst lasts until it is sent.
    pub open spec fn opening(self, n: int) -> Option<int>
        decreases n,
    {
        if n <= 0 || self.events[n - 1] is Sent {
            None
        } else if self.events[n - 1] is Packet && self.opening(n - 1) is None {
            Some(n - 1)
        } else {
            self.opening(n - 1)
        }
    }

    /// How many bytes the packets of the burst under way have, after the first `n` events.
    pub open spec fn laid(self, n: int) -> int
        decreases n,
    {
        if n <= 0 || self.events[n - 1] is Sent {
            0
        } else {
            self.laid(n - 1) + match self.events[n - 1] {
                BurstEvent::Packet { len, .. } => len as int,
                _ => 0,
            }
        }
    }

    /// The length, the address and the wish that came with packet `k`.
    pub open spec fn packet_at(self, k: int) -> (int, SocketAddress, int) {
        match self.events[k] {
            BurstEvent::Packet { len, to, quantum } => (len as int, to, quantum as int),
            _ => arbitrary(),
        }
    }

    /// With event `i` all of the burst that the packet of event `k` opened goes to the socket: in
    /// segments of that packet's size, or as it is if that is the only one.
    pub open spec fn ships_at(self, i: int, k: int) -> bool {
        let (segment, to, _) = self.packet_at(k);
        if self.laid(i + 1) > segment {
            self.actions[i] matches BurstAction::SendSegmented { total, segment: size, to: target }
                && total == self.laid(i + 1) && size == segment && target == to
        } else {
            self.actions[i] matches BurstAction::SendPlain { len, to: target } && len == segment
                && target == to
        }
    }
}

/// What the state remembers of the run.
proof fn lemma_memory(run: BurstRun, n: int)
    requires
        run.valid(),
        0 <= n < run.states.len(),
    ensures
        run.states[n].wf(),
        run.states[n].out_len == run.states[0].out_len,
        run.states[n].udp_gso == run.states[0].udp_gso,
        run.opening(n) matches Some(k) ==> 0 <= k < n && run.events[k] is Packet && run.laid(n)
            >= run.packet_at(k).0 > 0,
        match run.states[n].phase {
            BurstPhase::First => run.opening(n) is None && run.laid(n) == 0,
            BurstPhase::More { layout, limit } => run.opening(n) matches Some(k) && {
                let (segment, to, quantum) = run.packet_at(k);
                &&& layout.segment == segment && layout.to == to && layout.total == run.laid(n)
                &&& run.states[0].udp_gso
                &&& limit == if quantum < segment {
                    if segment < run.states[0].out_len {
                        segment
                    } else {
                        run.states[0].out_len as int
                    }
                } else if quantum < run.states[0].out_len {
                    quantum
                } else {
                    run.states[0].out_len as int
                }
            },
            BurstPhase::Sending { layout, done } => n > 0 && run.opening(n) is Some && done == (
            run.events[n - 1] is NothingToSend) && (run.actions[n - 1] is SendSegmented <==> (
            run.states[0].udp_gso && layout.total > layout.segment)),
            BurstPhase::Over => true,
        },
    decreases n,
{
    lemma_sizes(run, n);
    if n > 0 {
        lemma_memory(run, n - 1);
        assert(run.states[n - 1].expects(run.events[n - 1]));
        assert(run.states[n - 1].follows(run.events[n - 1], run.states[n], run.actions[n - 1]));
    }
}

/// After each action exactly what answers it is taken in: every answer, and nothing else.
pub proof fn law_answers_are_taken_in(run: BurstRun, i: int, event: BurstEvent)
    requires
        run.valid(),
        0 <= i < run.events.len(),
    ensures
        run.states[i + 1].expects(event) <==> answers(run.actions[i], event),
{
    lemma_memory(run, i);
    lemma_memory(run, i + 1);
    assert(run.states[i].expects(run.events[i]));
    assert(run.states[i].follows(run.events[i], run.states[i + 1], run.actions[i]));
}

/// How a burst is filled. The first packet may have 1,350 bytes, or what the buffer holds; each
/// further one as many as the first. Without segmentation a packet is sent at once. With it, packets
/// are added as long as one more as long as the first fits into the buffer and into what the
/// transport would like to send at once, and until one is shorter. They are all for one address, and
/// they are all sent.
pub proof fn law_burst_is_filled(run: BurstRun, i: int, len: usize, to: SocketAddress, quantum: usize)
    requires
        run.valid(),
        0 <= i < run.events.len(),
        run.events[i] == (BurstEvent::Packet { len, to, quantum }),
    ensures
        match run.opening(i) {
            None => {
                &&& len <= 1_350
                &&& len <= run.states[0].out_len
                &&& if run.states[0].udp_gso && 2 * len <= quantum && 2 * len
                    <= run.states[0].out_len {
                    run.actions[i] matches BurstAction::MakePacket { start, end } && start == len
                        && end == 2 * len
                } else {
                    run.actions[i] == (BurstAction::SendPlain { len, to })
                }
            },
            Some(k) => {
                let (segment, target, wish) = run.packet_at(k);
                let total = run.laid(i) + len;
                &&& len <= segment
                &&& if to != target {
                    run.actions[i] == BurstAction::Fail(BurstError::DestinationChanged)
                } else if len == segment && total + segment <= wish && total + segment
                    <= run.states[0].out_len {
                    run.actions[i] matches BurstAction::MakePacket { start, end } && start == total
                        && end == total + segment
                } else {
                    run.actions[i] matches BurstAction::SendSegmented {
                        total: all,
                        segment: size,
                        to: address,
                    } && all == total && size == segment && address == target
                }
            },
        },
{
    lemma_memory(run, i);
    lemma_memory(run, i + 1);
    assert(run.states[i].expects(run.events[i]));
    assert(run.states[i].follows(run.events[i], run.states[i + 1], run.actions[i]));
}

/// How sending goes on and ends. A burst is sent when the transport has nothing more, or nothing that
/// fits behind what is there; once it is sent, the next begins with an empty buffer, unless the
/// transport had nothing more. Each failure ends it, in its own words.
pub proof fn law_sending_goes_on(run: BurstRun, i: int)
    requires
        run.valid(),
        0 <= i < run.events.len(),
    ensures
        match run.events[i] {
            BurstEvent::Packet { .. } => !(run.actions[i] is Finish),
            BurstEvent::NothingToSend => match run.opening(i) {
                None => run.actions[i] is Finish,
                Some(k) => run.ships_at(i, k),
            },
            BurstEvent::BufferTooShort => match run.opening(i) {
                None => run.actions[i] matches BurstAction::Fail(BurstError::Quic(text)) && text@
                    == "BufferTooShort"@,
                Some(k) => run.ships_at(i, k),
            },
            BurstEvent::QuicFailed(text) => run.actions[i] == BurstAction::Fail(
                BurstError::Quic(text),
            ),
            BurstEvent::Sent => i > 0 && if run.events[i - 1] is NothingToSend {
                run.actions[i] is Finish
            } else {
                run.actions[i] matches BurstAction::MakePacket { start, end } && start == 0 && end
                    == if run.states[0].out_len < 1_350 {
                    run.states[0].out_len
                } else {
                    1_350
                }
            },
            BurstEvent::SendFailed(text) => i > 0 && run.actions[i] == BurstAction::Fail(
                if run.actions[i - 1] is SendSegmented {
                    BurstError::Segmented(text)
                } else {
                    BurstError::Plain(text)
                },
            ),
        },
{
    lemma_memory(run, i);
    lemma_memory(run, i + 1);
    assert(run.states[i].expects(run.events[i]));
    assert(run.states[i].follows(run.events[i], run.states[i + 1], run.actions[i]));
}

/// A packet without bytes opens no burst, and ends one: it is sent alone, or the burst is sent as it
/// is.
pub proof fn law_empty_packet_ends_a_burst(
    before: Burst,
    to: SocketAddress,
    quantum: usize,
    after: Burst,
    action: BurstAction,
)
    requires
        before.wf(),
        before.expects(BurstEvent::Packet { len: 0, to, quantum }),
        before.follows(BurstEvent::Packet { len: 0, to, quantum }, after, action),
    ensures
        match before.phase {
            BurstPhase::More { layout, .. } => if to != layout.to {
                action == BurstAction::Fail(BurstError::DestinationChanged)
            } else if layout.total > layout.segment {
                action == (BurstAction::SendSegmented {
                    total: layout.total,
                    segment: layout.segment,
                    to,
                })
            } else {
                action == (BurstAction::SendPlain { len: layout.segment, to })
            },
            _ => action == (BurstAction::SendPlain { len: 0, to }),
        },
{
}

/// How sending begins: with a packet at the front of the buffer, of 1,350 bytes at most.
pub proof fn law_burst_begins_at_the_front(before: Burst, after: Burst, start: usize, end: usize)
    requires
        before.begins(after, BurstAction::MakePacket { start, end }),
    ensures
        start == 0,
        end <= 1_350,
        end <= before.out_len,
        end == 1_350 || end == before.out_len,
        after.udp_gso == before.udp_gso,
        after.out_len == before.out_len,
{
}

} // verus!
