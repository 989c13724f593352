//! What holds of every pass in which a packet stream sends its transport's packets.
use crate::drive::{SendEvent, SendStep};
use crate::packet_session::{MasquePacketStream, PassPoll, PendingUdpSend, StreamError};
use vstd::prelude::*;

verus! {

/// The states that a stream went through in a pass, whether a packet had been sent by then, and
/// the events and steps in between.
pub struct SendRun {
    pub states: Seq<MasquePacketStream>,
    pub flushed: Seq<bool>,
    pub events: Seq<SendEvent>,
    pub steps: Seq<SendStep>,
}

/// The event tells how the step ended.
pub open spec fn answers(step: SendStep, event: SendEvent) -> bool {
    match step {
        SendStep::PollWritable => event is Writable || event is NotWritable || event
            is WritableFailed,
        SendStep::MakePacket => event is Packet || event is NothingToSend || event is QuicFailed,
        SendStep::TrySend(_) => event is Sent || event is WouldBlock || event is SendFailed,
        SendStep::Return(_) => false,
    }
}

impl SendRun {
    /// The pass begins, each event answers the step before it, and each state follows from the one
    /// before.
    pub open spec fn valid(self) -> bool {
        &&& self.events.len() > 0
        &&& self.states.len() == self.events.len() + 1
        &&& self.flushed.len() == self.events.len() + 1
        &&& self.steps.len() == self.events.len()
        &&& !self.flushed[0]
        &&& self.events[0] is Begin
        &&& forall|i: int| #![trigger self.events[i]]
            0 < i < self.events.len() ==> answers(self.steps[i - 1], self.events[i])
        &&& forall|i: int| #![trigger self.events[i]]
            0 <= i < self.events.len() ==> self.states[i].send_expects(self.events[i])
                && self.states[i].send_follows(
                self.flushed[i],
                self.events[i],
                self.states[i + 1],
                self.flushed[i + 1],
                self.steps[i],
            )
    }

    /// With event `i` the socket has taken a whole packet.
    pub open spec fn whole_sent_at(self, i: int) -> bool {
        &&& self.events[i] matches SendEvent::Sent(len)
        &&& self.states[i].pending_send matches Some(pending)
        &&& len == pending.len
    }

    /// The socket has taken a whole packet within the first `n` events.
    pub open spec fn whole_sent(self, n: int) -> bool {
        exists|i: int| 0 <= i < n && #[trigger] self.whole_sent_at(i)
    }
}

/// The stream remembers whether a whole packet was sent.
pub(crate) proof fn lemma_flushed(run: SendRun, n: int)
    requires
        run.valid(),
        0 <= n <= run.events.len(),
    ensures
        run.flushed[n] == run.whole_sent(n),
    decreases n,
{
    if n > 0 {
        lemma_flushed(run, n - 1);
        assert(run.states[n - 1].send_follows(
            run.flushed[n - 1],
            run.events[n - 1],
            run.states[n],
            run.flushed[n],
            run.steps[n - 1],
        ));
        if run.flushed[n - 1] {
            let i = choose|i: int| 0 <= i < n - 1 && #[trigger] run.whole_sent_at(i);
            assert(run.whole_sent_at(i));
            assert(run.whole_sent(n));
        } else if run.whole_sent_at(n - 1) {
            assert(run.whole_sent(n));
        }
    }
}

/// A pass reports the truth: that it did something exactly if the socket took at least one whole
/// packet in it, and that it could do nothing only if the socket took none.
pub proof fn law_pass_reports_what_was_sent(run: SendRun, poll: PassPoll)
    requires
        run.valid(),
        run.steps.last() == SendStep::Return(poll),
    ensures
        poll matches PassPoll::Ready(sent) ==> sent == run.whole_sent(run.events.len() as int),
        poll is Pending ==> !run.whole_sent(run.events.len() as int),
{
    let n = run.events.len() - 1;
    lemma_flushed(run, n);
    assert(run.states[n].send_follows(
        run.flushed[n],
        run.events[n],
        run.states[n + 1],
        run.flushed[n + 1],
        run.steps[n],
    ));
    if run.whole_sent(n + 1) {
        let i = choose|i: int| 0 <= i < n + 1 && #[trigger] run.whole_sent_at(i);
        assert(i != n);
        assert(run.whole_sent(n));
    }
    if run.whole_sent(n) {
        let i = choose|i: int| 0 <= i < n && #[trigger] run.whole_sent_at(i);
        assert(run.whole_sent_at(i));
        assert(run.whole_sent(n + 1));
    }
}

/// The transport is asked for a packet only while none waits for the socket. So a packet that
/// waits is not written over.
pub proof fn law_waiting_packet_is_kept(run: SendRun, i: int)
    requires
        run.valid(),
        0 <= i < run.events.len(),
    ensures
        run.steps[i] is MakePacket ==> run.states[i + 1].pending_send is None,
        run.states[i].pending_send is Some ==> run.states[i + 1].pending_send is None
            || run.states[i + 1].pending_send == run.states[i].pending_send,
        run.states[i].pending_send is Some && run.states[i + 1].pending_send is None
            ==> run.whole_sent_at(i),
{
    assert(run.states[i].send_follows(
        run.flushed[i],
        run.events[i],
        run.states[i + 1],
        run.flushed[i + 1],
        run.steps[i],
    ));
    assert(run.states[i].send_expects(run.events[i]));
}

/// A packet that the socket did not take is the first that the next pass offers it, before the
/// transport is asked for another.
pub proof fn law_waiting_packet_goes_first(earlier: SendRun, later: SendRun, pending: PendingUdpSend)
    requires
        earlier.valid(),
        earlier.events.last() is WouldBlock,
        earlier.states[earlier.events.len() - 1].pending_send == Some(pending),
        pending.to.addr == earlier.states.last().endpoint.addr,
        later.valid(),
        later.states[0] == earlier.states.last(),
    ensures
        earlier.steps.last() is Return,
        earlier.states.last().pending_send == Some(pending),
        later.steps[0] == SendStep::TrySend(pending.len),
{
    let n = earlier.events.len() - 1;
    assert(earlier.states[n].send_follows(
        earlier.flushed[n],
        earlier.events[n],
        earlier.states[n + 1],
        earlier.flushed[n + 1],
        earlier.steps[n],
    ));
    assert(later.states[0].send_follows(
        later.flushed[0],
        later.events[0],
        later.states[1],
        later.flushed[1],
        later.steps[0],
    ));
}

/// Nothing goes astray: only packets for the server are sent. A packet for another address ends the
/// pass with an error, and so does one that the socket took only a part of.
pub proof fn law_only_the_server_is_sent_to(run: SendRun, i: int)
    requires
        run.valid(),
        0 <= i < run.events.len(),
    ensures
        run.steps[i] matches SendStep::TrySend(len) ==> (run.states[i + 1].pending_send matches Some(
            pending,
        ) && pending.len == len && pending.to.addr == run.states[i + 1].endpoint.addr),
        run.events[i] matches SendEvent::Packet { to, .. } ==> (to.addr != run.states[i].endpoint.addr
            ==> (run.steps[i] matches SendStep::Return(PassPoll::Failed(error)) && error
            is UnexpectedTarget)),
        run.events[i] is Sent && !run.whole_sent_at(i) ==> run.steps[i] == SendStep::Return(
            PassPoll::Failed(StreamError::PartialSend),
        ),
{
    assert(run.states[i].send_follows(
        run.flushed[i],
        run.events[i],
        run.states[i + 1],
        run.flushed[i + 1],
        run.steps[i],
    ));
    assert(run.states[i].send_expects(run.events[i]));
}

} // verus!
