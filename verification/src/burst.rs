//! Sending the transport's packets in bursts.
//!
//! Where the socket can cut a buffer into segments, packets of one size are laid side by side and
//! sent with one call; the last of them may be shorter. `Burst` is told what the transport made
//! and what the socket did, and says what to do next.
use crate::net::SocketAddress;
use crate::packet_session::MAX_DATAGRAM_SIZE;
use vstd::arithmetic::div_mod::{lemma_mod_add_multiples_vanish, lemma_mod_self_0};
use vstd::prelude::*;
use vstd::string::StringExecFns;

verus! {

/// The size of the buffer that a burst is laid out in, in bytes.
pub const MAX_UDP_BATCH_BYTES: usize = 65_507;

/// Why a burst could not be sent.
#[derive(Debug)]
pub enum BurstError {
    /// The transport could not make a packet.
    Quic(String),
    /// The transport made a packet for another address than that of the burst.
    DestinationChanged,
    /// The segmented buffer was not sent.
    Segmented(String),
    /// The packet was not sent.
    Plain(String),
}

impl BurstError {
    /// The message.
    pub open spec fn text(self) -> Seq<char> {
        match self {
            BurstError::Quic(text) => "quic send error: "@ + text@,
            BurstError::DestinationChanged => "QUIC destination changed inside a GSO burst"@,
            BurstError::Segmented(text) => "UDP GSO send failed: "@ + text@,
            BurstError::Plain(text) => "UDP send failed: "@ + text@,
        }
    }

    /// The message.
    pub fn message(&self) -> (r: String)
        ensures
            r@ == self.text(),
    {
        match self {
            BurstError::Quic(text) => {
                let mut m = "quic send error: ".to_owned();
                m.append(text.as_str());
                m
            },
            BurstError::DestinationChanged =>
                "QUIC destination changed inside a GSO burst".to_owned(),
            BurstError::Segmented(text) => {
                let mut m = "UDP GSO send failed: ".to_owned();
                m.append(text.as_str());
                m
            },
            BurstError::Plain(text) => {
                let mut m = "UDP send failed: ".to_owned();
                m.append(text.as_str());
                m
            },
        }
    }
}

/// A burst being laid out: its packets are `segment` bytes each and fill the first `total` bytes
/// of the buffer; all are for `to`.
#[derive(Debug, Clone, Copy, PartialEq, Eq, Structural)]
pub struct Layout {
    pub segment: usize,
    pub total: usize,
    pub to: SocketAddress,
}

/// Where sending stands.
#[derive(Debug, Clone, Copy, PartialEq, Eq, Structural)]
pub enum BurstPhase {
    /// The transport was asked for the first packet of a burst.
    First,
    /// The transport was asked for another packet; the burst takes `limit` bytes at most.
    More { layout: Layout, limit: usize },
    /// The socket was asked to send. `done` is whether the transport has nothing left.
    Sending { layout: Layout, done: bool },
    /// All is sent, or sending failed.
    Over,
}

/// What happened.
#[derive(Debug)]
pub enum BurstEvent {
    /// The transport made a packet, and would like to send this many bytes at once.
    Packet { len: usize, to: SocketAddress, quantum: usize },
    /// The transport has nothing to send.
    NothingToSend,
    /// The transport has a packet that is larger than the room it was given.
    BufferTooShort,
    /// The transport could not make a packet.
    QuicFailed(String),
    /// The socket sent what it was asked to.
    Sent,
    /// The socket did not send it.
    SendFailed(String),
}

/// What to do next.
#[derive(Debug)]
pub enum BurstAction {
    /// Ask the transport for a packet, to be laid into the buffer from `start` to before `end`.
    MakePacket { start: usize, end: usize },
    /// Send the first `total` bytes of the buffer in segments.
    SendSegmented { total: usize, segment: usize, to: SocketAddress },
    /// Send the first `len` bytes of the buffer as one packet.
    SendPlain { len: usize, to: SocketAddress },
    /// All is sent.
    Finish,
    /// Sending failed.
    Fail(BurstError),
}


/// The smaller of two.
pub open spec fn smaller(a: int, b: int) -> int {
    if a < b {
        a
    } else {
        b
    }
}

/// How many bytes a burst may take: what the transport would like to send at once, but at least
/// one segment, and no more than the buffer holds.
pub open spec fn burst_limit(quantum: int, segment: int, out_len: int) -> int {
    smaller(
        if quantum < segment {
            segment
        } else {
            quantum
        },
        out_len,
    )
}

/// The sending of the transport's packets.
#[derive(Debug, Clone, Copy, PartialEq, Eq, Structural)]
pub struct Burst {
    /// Whether the socket can cut a buffer into segments.
    pub udp_gso: bool,
    /// The size of the buffer.
    pub out_len: usize,
    pub phase: BurstPhase,
}

impl Burst {
    /// A burst stays inside the buffer. While it grows it consists of whole segments, and there is
    /// room for one more within its limit.
    pub open spec fn wf(self) -> bool {
        match self.phase {
            BurstPhase::First => true,
            BurstPhase::More { layout, limit } => {
                &&& self.udp_gso
                &&& 0 < layout.segment <= layout.total
                &&& layout.total % layout.segment == 0
                &&& layout.total + layout.segment <= limit <= self.out_len
            },
            BurstPhase::Sending { layout, .. } => layout.segment <= layout.total <= self.out_len,
            BurstPhase::Over => true,
        }
    }

    /// How much room the first packet of a burst is given.
    pub open spec fn first_room(self) -> int {
        smaller(MAX_DATAGRAM_SIZE as int, self.out_len as int)
    }

    /// The event answers what was last asked for, and a packet fits the room that it was given.
    pub open spec fn expects(self, event: BurstEvent) -> bool {
        match self.phase {
            BurstPhase::First => match event {
                BurstEvent::Packet { len, .. } => len <= self.first_room(),
                BurstEvent::Sent => false,
                BurstEvent::SendFailed(_) => false,
                _ => true,
            },
            BurstPhase::More { layout, .. } => match event {
                BurstEvent::Packet { len, .. } => len <= layout.segment,
                BurstEvent::Sent => false,
                BurstEvent::SendFailed(_) => false,
                _ => true,
            },
            BurstPhase::Sending { .. } => event is Sent || event is SendFailed,
            BurstPhase::Over => false,
        }
    }

    /// The burst as it is laid out goes to the socket: in segments if there is more than one.
    pub open spec fn ships(
        self,
        layout: Layout,
        done: bool,
        after: Burst,
        action: BurstAction,
    ) -> bool {
        &&& after == (Burst { phase: BurstPhase::Sending { layout, done }, ..self })
        &&& action == if self.udp_gso && layout.total > layout.segment {
            BurstAction::SendSegmented {
                total: layout.total,
                segment: layout.segment,
                to: layout.to,
            }
        } else {
            BurstAction::SendPlain { len: layout.segment, to: layout.to }
        }
    }

    /// The burst grows by another packet if there is room for a whole segment, and ships
    /// otherwise.
    pub open spec fn grows(
        self,
        layout: Layout,
        limit: int,
        after: Burst,
        action: BurstAction,
    ) -> bool {
        if layout.total + layout.segment <= limit {
            &&& after == (Burst { phase: BurstPhase::More { layout, limit: limit as usize }, ..self })
            &&& action == (BurstAction::MakePacket {
                start: layout.total,
                end: (layout.total + layout.segment) as usize,
            })
        } else {
            self.ships(layout, false, after, action)
        }
    }

    /// A new burst begins.
    pub open spec fn begins(self, after: Burst, action: BurstAction) -> bool {
        &&& after == (Burst { phase: BurstPhase::First, ..self })
        &&& action == (BurstAction::MakePacket { start: 0, end: self.first_room() as usize })
    }

    /// Sending is over.
    pub open spec fn ends(self, after: Burst) -> bool {
        after == (Burst { phase: BurstPhase::Over, ..self })
    }

    /// How sending goes on.
    pub open spec fn follows(self, event: BurstEvent, after: Burst, action: BurstAction) -> bool {
        match (self.phase, event) {
            (BurstPhase::First, BurstEvent::Packet { len, to, quantum }) => {
                let layout = Layout { segment: len, total: len, to };
                if self.udp_gso && len > 0 {
                    self.grows(
                        layout,
                        burst_limit(quantum as int, len as int, self.out_len as int),
                        after,
                        action,
                    )
                } else {
                    self.ships(layout, false, after, action)
                }
            },
            (BurstPhase::First, BurstEvent::NothingToSend) => self.ends(after) && action is Finish,
            (BurstPhase::First, BurstEvent::BufferTooShort) => {
                &&& self.ends(after)
                &&& action matches BurstAction::Fail(BurstError::Quic(text))
                &&& text@ == "BufferTooShort"@
            },
            (BurstPhase::More { layout, limit }, BurstEvent::Packet { len, to, .. }) => {
                let grown = Layout { total: (layout.total + len) as usize, ..layout };
                if to != layout.to {
                    self.ends(after) && action == BurstAction::Fail(BurstError::DestinationChanged)
                } else if len < layout.segment {
                    // Only the last segment may be shorter.
                    self.ships(grown, false, after, action)
                } else {
                    self.grows(grown, limit as int, after, action)
                }
            },
            (BurstPhase::More { layout, .. }, BurstEvent::BufferTooShort) => self.ships(
                layout,
                false,
                after,
                action,
            ),
            (BurstPhase::More { layout, .. }, BurstEvent::NothingToSend) => self.ships(
                layout,
                true,
                after,
                action,
            ),
            (BurstPhase::Sending { done, .. }, BurstEvent::Sent) => if done {
                self.ends(after) && action is Finish
            } else {
                self.begins(after, action)
            },
            (BurstPhase::Sending { layout, .. }, BurstEvent::SendFailed(text)) => {
                &&& self.ends(after)
                &&& action == BurstAction::Fail(
                    if self.udp_gso && layout.total > layout.segment {
                        BurstError::Segmented(text)
                    } else {
                        BurstError::Plain(text)
                    },
                )
            },
            (_, BurstEvent::QuicFailed(text)) => self.ends(after) && action == BurstAction::Fail(
                BurstError::Quic(text),
            ),
            _ => false,
        }
    }

    /// Sending that has not begun.
    pub fn new(udp_gso: bool, out_len: usize) -> (r: Burst)
        ensures
            r == (Burst { udp_gso, out_len, phase: BurstPhase::First }),
            r.wf(),
    {
        Burst { udp_gso, out_len, phase: BurstPhase::First }
    }

    /// Begins a burst.
    pub fn begin(&mut self) -> (r: BurstAction)
        ensures
            final(self).wf(),
            old(self).begins(*final(self), r),
    {
        self.phase = BurstPhase::First;
        let end: usize = if MAX_DATAGRAM_SIZE < self.out_len {
            MAX_DATAGRAM_SIZE
        } else {
            self.out_len
        };
        BurstAction::MakePacket { start: 0, end }
    }

    fn ship(&mut self, layout: Layout, done: bool) -> (r: BurstAction)
        requires
            layout.segment <= layout.total <= old(self).out_len,
        ensures
            final(self).wf(),
            old(self).ships(layout, done, *final(self), r),
    {
        self.phase = BurstPhase::Sending { layout, done };
        if self.udp_gso && layout.total > layout.segment {
            BurstAction::SendSegmented {
                total: layout.total,
                segment: layout.segment,
                to: layout.to,
            }
        } else {
            BurstAction::SendPlain { len: layout.segment, to: layout.to }
        }
    }

    fn grow(&mut self, layout: Layout, limit: usize) -> (r: BurstAction)
        requires
            old(self).udp_gso,
            0 < layout.segment <= layout.total <= limit <= old(self).out_len,
            layout.total % layout.segment == 0,
        ensures
            final(self).wf(),
            old(self).grows(layout, limit as int, *final(self), r),
    {
        if layout.segment <= limit - layout.total {
            self.phase = BurstPhase::More { layout, limit };
            BurstAction::MakePacket { start: layout.total, end: layout.total + layout.segment }
        } else {
            self.ship(layout, false)
        }
    }

    fn fail(&mut self, error: BurstError) -> (r: BurstAction)
        ensures
            final(self).wf(),
            old(self).ends(*final(self)),
            r == BurstAction::Fail(error),
    {
        self.phase = BurstPhase::Over;
        BurstAction::Fail(error)
    }

    fn finish(&mut self) -> (r: BurstAction)
        ensures
            final(self).wf(),
            old(self).ends(*final(self)),
            r is Finish,
    {
        self.phase = BurstPhase::Over;
        BurstAction::Finish
    }

    /// Takes in what happened and says what to do next.
    pub fn flush_quic_packets(&mut self, event: BurstEvent) -> (r: BurstAction)
        requires
            old(self).wf(),
            old(self).expects(event),
        ensures
            final(self).wf(),
            old(self).follows(event, *final(self), r),
    {
        match (self.phase, event) {
            (_, BurstEvent::QuicFailed(text)) => self.fail(BurstError::Quic(text)),
            (BurstPhase::First, BurstEvent::Packet { len, to, quantum }) => {
                let layout = Layout { segment: len, total: len, to };
                if self.udp_gso && len > 0 {
                    let wished: usize = if quantum < len {
                        len
                    } else {
                        quantum
                    };
                    let limit: usize = if wished < self.out_len {
                        wished
                    } else {
                        self.out_len
                    };
                    proof {
                        lemma_mod_self_0(len as int);
                    }
                    self.grow(layout, limit)
                } else {
                    self.ship(layout, false)
                }
            },
            (BurstPhase::First, BurstEvent::BufferTooShort) => self.fail(
                BurstError::Quic("BufferTooShort".to_owned()),
            ),
            (BurstPhase::More { layout, limit }, BurstEvent::Packet { len, to, .. }) => {
                if to != layout.to {
                    return self.fail(BurstError::DestinationChanged);
                }
                let grown = Layout {
                    segment: layout.segment,
                    total: layout.total + len,
                    to: layout.to,
                };
                if len < layout.segment {
                    self.ship(grown, false)
                } else {
                    proof {
                        lemma_mod_add_multiples_vanish(layout.total as int, layout.segment as int);
                    }
                    self.grow(grown, limit)
                }
            },
            (BurstPhase::More { layout, .. }, BurstEvent::BufferTooShort) => self.ship(
                layout,
                false,
            ),
            (BurstPhase::More { layout, .. }, BurstEvent::NothingToSend) => self.ship(layout, true),
            (BurstPhase::Sending { done, .. }, BurstEvent::Sent) => if done {
                self.finish()
            } else {
                self.begin()
            },
            (BurstPhase::Sending { layout, .. }, BurstEvent::SendFailed(text)) => {
                if self.udp_gso && layout.total > layout.segment {
                    self.fail(BurstError::Segmented(text))
                } else {
                    self.fail(BurstError::Plain(text))
                }
            },
            _ => self.finish(),
        }
    }
}

/// Where a packet is laid: the room it is given lies inside the buffer and begins right behind
/// the packets before it, at a multiple of the segment size. So the kernel cuts the buffer
/// exactly where the packets meet.
pub proof fn law_packets_on_boundaries(
    before: Burst,
    event: BurstEvent,
    after: Burst,
    start: usize,
    end: usize,
)
    requires
        before.wf(),
        before.expects(event),
        before.follows(event, after, BurstAction::MakePacket { start, end }),
        after.wf(),
    ensures
        start <= end <= before.out_len,
        match after.phase {
            BurstPhase::More { layout, .. } => start == layout.total && end - start
                == layout.segment && start % layout.segment == 0,
            _ => start == 0,
        },
{
}

/// What is sent: nothing but what was laid out, and of a burst at most the buffer; without
/// segmentation, each packet by itself.
pub proof fn law_sends_what_was_made(
    before: Burst,
    event: BurstEvent,
    after: Burst,
    action: BurstAction,
)
    requires
        before.wf(),
        before.expects(event),
        before.follows(event, after, action),
        after.wf(),
    ensures
        match action {
            BurstAction::SendSegmented { total, segment, to } => before.udp_gso && segment < total
                <= before.out_len && match before.phase {
                BurstPhase::More { layout, .. } => segment == layout.segment && to == layout.to
                    && total == layout.total + match event {
                    BurstEvent::Packet { len, .. } => len as int,
                    _ => 0,
                },
                _ => false,
            },
            BurstAction::SendPlain { len, to } => match before.phase {
                BurstPhase::First => event matches BurstEvent::Packet { len: made, to: target, .. }
                    && len == made && to == target,
                BurstPhase::More { layout, .. } => len == layout.segment == layout.total && to
                    == layout.to && (event matches BurstEvent::Packet { len: made, .. } ==> made == 0),
                _ => false,
            },
            _ => true,
        },
{
}

/// A burst is marked as the last one only when the transport said that it has nothing more to
/// send.
pub proof fn law_last_burst_is_marked(
    before: Burst,
    event: BurstEvent,
    after: Burst,
    action: BurstAction,
)
    requires
        before.wf(),
        before.expects(event),
        before.follows(event, after, action),
    ensures
        after.phase matches BurstPhase::Sending { done, .. } ==> done == (event is NothingToSend),
{
}

/// Nothing is left unsent without an error: sending ends well only when the transport said that
/// it has nothing more to send, right away or while the last burst was laid out.
pub proof fn law_ends_when_nothing_is_left(before: Burst, event: BurstEvent, after: Burst)
    requires
        before.wf(),
        before.expects(event),
        before.follows(event, after, BurstAction::Finish),
    ensures
        match before.phase {
            BurstPhase::First => event is NothingToSend,
            BurstPhase::Sending { done, .. } => done && event is Sent,
            _ => false,
        },
{
}

} // verus!
