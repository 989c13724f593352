//! What holds of every run of sending in bursts.
use crate::burst::{Burst, BurstAction, BurstEvent, BurstPhase};
use crate::net::SocketAddress;
use vstd::arithmetic::div_mod::{lemma_mod_add_multiples_vanish, lemma_mod_self_0, lemma_small_mod};
use vstd::prelude::*;

verus! {

/// A packet and where it goes.
pub type Parcel = (Seq<u8>, SocketAddress);

/// The pieces of a buffer that is cut every `segment` bytes. The last may be shorter.
pub open spec fn cut(bytes: Seq<u8>, segment: nat) -> Seq<Seq<u8>>
    decreases bytes.len(),
{
    if bytes.len() == 0 || segment == 0 {
        Seq::empty()
    } else if bytes.len() <= segment {
        seq![bytes]
    } else {
        seq![bytes.take(segment as int)] + cut(bytes.skip(segment as int), segment)
    }
}

/// The pieces, all for one address.
pub open spec fn parcels(pieces: Seq<Seq<u8>>, to: SocketAddress) -> Seq<Parcel> {
    pieces.map_values(|piece: Seq<u8>| (piece, to))
}

/// A buffer after `bytes` were written into it from `start` on.
pub open spec fn written(buffer: Seq<u8>, start: int, bytes: Seq<u8>) -> Seq<u8> {
    buffer.take(start) + bytes + buffer.skip(start + bytes.len())
}

/// Where the transport was told to lay the packet that it is asked for.
pub open spec fn laid_at(burst: Burst) -> int {
    match burst.phase {
        BurstPhase::More { layout, .. } => layout.total as int,
        _ => 0,
    }
}

/// The states that sending went through, the events in between and what it said to do; what the
/// buffer held at first; and, for each event in which the transport made a packet, its bytes.
pub struct BurstRun {
    pub states: Seq<Burst>,
    pub events: Seq<BurstEvent>,
    pub actions: Seq<BurstAction>,
    pub initial: Seq<u8>,
    pub made: Seq<Seq<u8>>,
}

impl BurstRun {
    /// Each state follows from the one before, the first has not begun, and no packet is empty.
    pub open spec fn valid(self) -> bool {
        &&& self.states.len() == self.events.len() + 1
        &&& self.actions.len() == self.events.len()
        &&& self.made.len() == self.events.len()
        &&& self.states[0].phase is First
        &&& self.initial.len() == self.states[0].out_len
        &&& forall|i: int| #![trigger self.events[i]]
            0 <= i < self.events.len() ==> self.states[i].expects(self.events[i])
                && self.states[i].follows(self.events[i], self.states[i + 1], self.actions[i]) && (
            self.events[i] matches BurstEvent::Packet { len, .. } ==> self.made[i].len() == len
                && len > 0)
    }

    /// What the buffer holds after the first `n` events: each packet where it was laid.
    pub open spec fn buffer(self, n: int) -> Seq<u8>
        decreases n,
    {
        if n <= 0 {
            self.initial
        } else if self.events[n - 1] is Packet {
            written(self.buffer(n - 1), laid_at(self.states[n - 1]), self.made[n - 1])
        } else {
            self.buffer(n - 1)
        }
    }

    /// The packets that the transport made in the first `n` events.
    pub open spec fn packets(self, n: int) -> Seq<Parcel>
        decreases n,
    {
        if n <= 0 {
            Seq::empty()
        } else {
            self.packets(n - 1) + match self.events[n - 1] {
                BurstEvent::Packet { to, .. } => seq![(self.made[n - 1], to)],
                _ => Seq::empty(),
            }
        }
    }

    /// What the socket was asked to send in the first `n` events: buffers cut at their segment
    /// size, and single packets.
    pub open spec fn shipped(self, n: int) -> Seq<Parcel>
        decreases n,
    {
        if n <= 0 {
            Seq::empty()
        } else {
            self.shipped(n - 1) + match self.actions[n - 1] {
                BurstAction::SendSegmented { total, segment, to } => parcels(
                    cut(self.buffer(n).take(total as int), segment as nat),
                    to,
                ),
                BurstAction::SendPlain { len, to } => seq![(self.buffer(n).take(len as int), to)],
                _ => Seq::empty(),
            }
        }
    }

    /// The burst that is being laid out after the first `n` events.
    pub open spec fn under_way(self, n: int) -> Seq<Parcel> {
        match self.states[n].phase {
            BurstPhase::More { layout, .. } => parcels(
                cut(self.buffer(n).take(layout.total as int), layout.segment as nat),
                layout.to,
            ),
            _ => Seq::empty(),
        }
    }
}

/// A piece that is put behind whole segments is cut off again.
proof fn lemma_cut_push(bytes: Seq<u8>, piece: Seq<u8>, segment: nat)
    requires
        0 < piece.len() <= segment,
        bytes.len() % segment == 0,
    ensures
        cut(bytes + piece, segment) == cut(bytes, segment).push(piece),
    decreases bytes.len(),
{
    if bytes.len() == 0 {
        assert(bytes + piece =~= piece);
        assert(cut(bytes + piece, segment) =~= cut(bytes, segment).push(piece));
    } else {
        if bytes.len() < segment {
            lemma_small_mod(bytes.len(), segment);
        }
        let rest = bytes.skip(segment as int);
        lemma_mod_add_multiples_vanish(rest.len() as int, segment as int);
        lemma_cut_push(rest, piece, segment);
        let all = bytes + piece;
        assert(all.take(segment as int) =~= bytes.take(segment as int));
        assert(all.skip(segment as int) =~= rest + piece);
        if bytes.len() == segment {
            assert(rest =~= Seq::empty());
            assert(bytes.take(segment as int) =~= bytes);
        }
        assert(cut(all, segment) =~= cut(bytes, segment).push(piece));
    }
}

/// The sizes stay, and so does the size of the buffer.
pub(crate) proof fn lemma_sizes(run: BurstRun, n: int)
    requires
        run.valid(),
        0 <= n < run.states.len(),
    ensures
        run.states[n].wf(),
        run.states[n].out_len == run.states[0].out_len,
        run.buffer(n).len() == run.states[0].out_len,
    decreases n,
{
    if n > 0 {
        lemma_sizes(run, n - 1);
        let before = run.states[n - 1];
        let event = run.events[n - 1];
        assert(before.expects(event));
        assert(before.follows(event, run.states[n], run.actions[n - 1]));
        if let BurstEvent::Packet { len, .. } = event {
            match before.phase {
                BurstPhase::First => {
                    lemma_mod_self_0(len as int);
                },
                BurstPhase::More { layout, .. } => {
                    lemma_mod_add_multiples_vanish(layout.total as int, layout.segment as int);
                },
                _ => {},
            }
        }
    }
}

/// The packets arrive as they were made: what the socket was asked to send, with buffers cut at
/// their segment size, and then the burst under way are the packets that the transport made, in
/// order, each to its address. This holds as long as sending has not failed.
pub proof fn law_packets_shipped_in_order(run: BurstRun, n: int)
    requires
        run.valid(),
        0 <= n < run.states.len(),
        forall|i: int| 0 <= i < n ==> !((#[trigger] run.actions[i]) is Fail),
    ensures
        run.packets(n) == run.shipped(n) + run.under_way(n),
    decreases n,
{
    if n > 0 {
        law_packets_shipped_in_order(run, n - 1);
        lemma_sizes(run, n - 1);
        lemma_sizes(run, n);
        let before = run.states[n - 1];
        let after = run.states[n];
        let event = run.events[n - 1];
        let action = run.actions[n - 1];
        let old_buffer = run.buffer(n - 1);
        let buffer = run.buffer(n);
        assert(before.expects(event));
        assert(before.follows(event, after, action));
        assert(!(action is Fail));
        let step = match action {
            BurstAction::SendSegmented { total, segment, to } => parcels(
                cut(buffer.take(total as int), segment as nat),
                to,
            ),
            BurstAction::SendPlain { len, to } => seq![(buffer.take(len as int), to)],
            _ => Seq::empty(),
        };
        let made = match event {
            BurstEvent::Packet { to, .. } => seq![(run.made[n - 1], to)],
            _ => Seq::<Parcel>::empty(),
        };
        assert(run.under_way(n - 1) + made =~= step + run.under_way(n)) by {
            match (before.phase, event) {
                (BurstPhase::First, BurstEvent::Packet { len, to, quantum }) => {
                    assert(buffer.take(len as int) =~= run.made[n - 1]);
                    assert(cut(buffer.take(len as int), len as nat) =~= seq![run.made[n - 1]]);
                },
                (BurstPhase::More { layout, limit }, BurstEvent::Packet { len, to, quantum }) => {
                    let laid = old_buffer.take(layout.total as int);
                    assert(buffer.take(layout.total + len) =~= laid + run.made[n - 1]);
                    lemma_cut_push(laid, run.made[n - 1], layout.segment as nat);
                },
                (BurstPhase::More { layout, limit }, _) => {
                    let laid = buffer.take(layout.total as int);
                    if layout.total == layout.segment {
                        assert(cut(laid, layout.segment as nat) =~= seq![laid]);
                    }
                },
                _ => {},
            }
        }
        assert(run.packets(n) =~= run.shipped(n - 1) + (run.under_way(n - 1) + made));
        assert(run.packets(n) =~= run.shipped(n) + run.under_way(n));
    } else {
        assert(run.packets(n) =~= run.shipped(n) + run.under_way(n));
    }
}

/// Nothing is left behind: when sending ends well, the socket was asked to send every packet that
/// the transport made.
pub proof fn law_all_packets_shipped(run: BurstRun)
    requires
        run.valid(),
        run.events.len() > 0,
        forall|i: int| 0 <= i < run.events.len() ==> !((#[trigger] run.actions[i]) is Fail),
        run.actions.last() is Finish,
    ensures
        run.packets(run.events.len() as int) == run.shipped(run.events.len() as int),
{
    let n = run.events.len() as int;
    law_packets_shipped_in_order(run, n);
    assert(run.states[n - 1].follows(run.events[n - 1], run.states[n], run.actions[n - 1]));
    assert(run.states[n - 1].expects(run.events[n - 1]));
    assert(run.packets(n) =~= run.shipped(n));
}

} // verus!
