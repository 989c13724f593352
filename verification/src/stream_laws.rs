//! What each call on a packet stream answers, in terms of what was called before.
use crate::datagram::flow_prefix;
use crate::packet_session::{
    CloseStep, DrivePoll, ErrorKind, FlushEvent, FlushPoll, FlushStep, MasquePacketStream, NextStep,
    PacketSessionConfig, PacketSessionState, PassPoll, ReadyStep, StreamError,
};
use crate::session_laws::{law_outbound_in_order, law_stream_wf, StreamCall, StreamRun};
use crate::setup::SessionSetup;
use vstd::prelude::*;

verus! {

impl StreamCall {
    /// The text of the failure that the call was told of.
    pub open spec fn failure(self) -> Option<Seq<char>> {
        match self {
            StreamCall::Next { drive: Some(DrivePoll::Failed(error)), .. } => Some(error.text()),
            StreamCall::Ready { drive: Some(DrivePoll::Failed(error)), .. } => Some(error.text()),
            StreamCall::Flush { event, .. } => match event {
                FlushEvent::Driven { outcome: DrivePoll::Failed(error), .. } => Some(error.text()),
                FlushEvent::Sent(PassPoll::Failed(error)) => Some(error.text()),
                _ => None,
            },
            StreamCall::Close { flush: Some(FlushPoll::Failed(error)), .. } => Some(error.text()),
            _ => None,
        }
    }

    /// The call was told that the flush of a stream to be closed is done.
    pub open spec fn closes(self) -> bool {
        self matches StreamCall::Close { flush: Some(FlushPoll::Done), .. }
    }
}

impl StreamRun {
    /// The text of the first failure among the first `n` calls.
    pub open spec fn first_failure(self, n: int) -> Option<Seq<char>>
        decreases n,
    {
        if n <= 0 {
            None
        } else if self.first_failure(n - 1) is Some {
            self.first_failure(n - 1)
        } else {
            self.calls[n - 1].failure()
        }
    }

    /// The session failed or the stream was closed in one of the first `n` calls.
    pub open spec fn over(self, n: int) -> bool {
        exists|i: int|
            0 <= i < n && ((#[trigger] self.calls[i]).failure() is Some || self.calls[i].closes())
    }

    /// The stream reported its error, or was closed, in one of the first `n` calls.
    pub open spec fn reported(self, n: int) -> bool {
        exists|i: int|
            0 <= i < n && ((#[trigger] self.calls[i]).yields_error() || self.calls[i].closes())
    }

    /// How many packets wait to be sent after the first `n` calls.
    pub open spec fn waiting(self, n: int) -> int {
        self.accepted(n).len() - self.settled(n).len()
    }
}

/// A stream begins as one that is up, with nothing queued and nothing failed, on the flow of its
/// set-up: the number of the stream of the CONNECT request, divided by four. It is for the server and
/// with the keepalive period that it was asked for.
pub proof fn law_stream_begins_empty(
    stream: MasquePacketStream,
    session_cfg: PacketSessionConfig,
    endpoint_text: String,
    setup: SessionSetup,
    flow_id: nat,
)
    requires
        stream.connected(session_cfg, endpoint_text, setup),
        4 * flow_id <= setup.stream_id < 4 * flow_id + 4,
    ensures
        (StreamRun { states: seq![stream], calls: Seq::empty() }).valid(),
        stream.flow_prefix@ == flow_prefix(flow_id),
        stream.endpoint.addr == session_cfg.endpoint,
        stream.endpoint.text == endpoint_text,
        stream.keepalive_period == session_cfg.keepalive_period,
        stream.pending_send is None,
{
    assert(setup.flow() == flow_id);
}

/// What a stream remembers: its error is that of the first call that was told of a failure; it is
/// closed exactly if it failed or was closed; and that it has ended was reported exactly if it
/// yielded its error or was closed.
pub proof fn law_stream_remembers_its_end(run: StreamRun, n: int)
    requires
        run.valid(),
        0 <= n < run.states.len(),
    ensures
        run.states[n].terminal() == run.first_failure(n),
        run.states[n].state == PacketSessionState::Closed <==> run.over(n),
        run.states[n].state == PacketSessionState::Ready <==> !run.over(n),
        run.states[n].emitted_terminal_error <==> run.reported(n),
        run.first_failure(n) is Some ==> run.over(n),
        run.states[n].outbound_queue@.len() == run.waiting(n),
    decreases n,
{
    law_outbound_in_order(run, n);
    if n > 0 {
        law_stream_remembers_its_end(run, n - 1);
        let before = run.states[n - 1];
        let after = run.states[n];
        let call = run.calls[n - 1];
        assert(call.leads(before, after));
        law_stream_wf(run, n - 1);
        law_stream_wf(run, n);
        if run.over(n - 1) {
            let i = choose|i: int|
                0 <= i < n - 1 && ((#[trigger] run.calls[i]).failure() is Some
                    || run.calls[i].closes());
            assert(run.calls[i].failure() is Some || run.calls[i].closes());
            assert(run.over(n));
        }
        if run.reported(n - 1) {
            let i = choose|i: int|
                0 <= i < n - 1 && ((#[trigger] run.calls[i]).yields_error()
                    || run.calls[i].closes());
            assert(run.calls[i].yields_error() || run.calls[i].closes());
            assert(run.reported(n));
        }
        if call.failure() is Some || call.closes() {
            assert(run.over(n));
        } else if run.over(n) {
            let i = choose|i: int|
                0 <= i < n && ((#[trigger] run.calls[i]).failure() is Some
                    || run.calls[i].closes());
            assert(i < n - 1);
            assert(run.over(n - 1));
        }
        if call.yields_error() || call.closes() {
            assert(run.reported(n));
        } else if run.reported(n) {
            let i = choose|i: int|
                0 <= i < n && ((#[trigger] run.calls[i]).yields_error() || run.calls[i].closes());
            assert(i < n - 1);
            assert(run.reported(n - 1));
        }
    }
}

/// A packet is taken exactly while the session is up and fewer than 32,768 wait. Otherwise the
/// answer says which of the two it was.
pub proof fn law_packet_is_taken_iff_room(
    run: StreamRun,
    i: int,
    item: Vec<u8>,
    result: Result<(), StreamError>,
)
    requires
        run.valid(),
        0 <= i < run.calls.len(),
        run.calls[i] == (StreamCall::Start { item, result }),
    ensures
        run.over(i) ==> result == Err::<(), StreamError>(StreamError::Closed),
        !run.over(i) && run.waiting(i) >= 32_768 ==> result == Err::<(), StreamError>(
            StreamError::QueueFull,
        ),
        !run.over(i) && run.waiting(i) < 32_768 ==> result is Ok,
{
    law_stream_remembers_its_end(run, i);
    assert(run.calls[i].leads(run.states[i], run.states[i + 1]));
}

/// What asking for room answers. There is room while fewer than 32,768 packets wait; if there is
/// none, the session is driven, and then there may be.
pub proof fn law_room_is_reported(
    run: StreamRun,
    i: int,
    drive: Option<DrivePoll>,
    step: ReadyStep,
)
    requires
        run.valid(),
        0 <= i < run.calls.len(),
        run.calls[i] == (StreamCall::Ready { drive, step }),
    ensures
        match drive {
            None => if run.over(i) {
                step == ReadyStep::Failed(StreamError::Closed)
            } else if run.waiting(i) < 32_768 {
                step is Ready
            } else {
                step is Drive
            },
            Some(DrivePoll::Done) => if run.waiting(i) < 32_768 {
                step is Ready
            } else {
                step is Pending
            },
            Some(DrivePoll::Pending) => step is Pending,
            Some(DrivePoll::Failed(error)) => step == ReadyStep::Failed(error),
        },
{
    law_stream_remembers_its_end(run, i);
    assert(run.calls[i].leads(run.states[i], run.states[i + 1]));
}

/// What asking for a packet answers: the first that was taken in and not yet yielded; if there is
/// none, the first failure, once, and then the end. Only if there is neither is the session driven,
/// and only a drive with nothing to do leaves the reader waiting.
pub proof fn law_reader_is_answered(
    run: StreamRun,
    i: int,
    drive: Option<DrivePoll>,
    step: NextStep,
)
    requires
        run.valid(),
        0 <= i < run.calls.len(),
        run.calls[i] == (StreamCall::Next { drive, step }),
    ensures
        drive matches Some(DrivePoll::Pending) ==> step is Pending,
        !(drive matches Some(DrivePoll::Pending)) ==> if run.admitted(i).len() > run.yielded(
            i,
        ).len() {
            step == NextStep::Packet(run.admitted(i)[run.yielded(i).len() as int])
        } else if run.reported(i) {
            step is End
        } else {
            match run.first_failure(i + 1) {
                Some(first) => step matches NextStep::Error(StreamError::Terminal(text)) && text@
                    == first,
                None => step is Drive,
            }
        },
{
    law_stream_remembers_its_end(run, i);
    law_stream_remembers_its_end(run, i + 1);
    crate::session_laws::law_inbound_in_order(run, i);
    assert(run.calls[i].leads(run.states[i], run.states[i + 1]));
}

/// What a flush does: it drives the session until no packet waits, then has the transport's packets
/// sent, and is done when they are. It goes on while the queue gets shorter, and waits if a drive
/// does not make it shorter. What failed ends it.
pub proof fn law_flush_goes_on(run: StreamRun, i: int, event: FlushEvent, step: FlushStep)
    requires
        run.valid(),
        0 <= i < run.calls.len(),
        run.calls[i] == (StreamCall::Flush { event, step }),
    ensures
        event is Begin ==> match run.first_failure(i) {
            Some(first) => step matches FlushStep::Failed(StreamError::Terminal(text)) && text@
                == first,
            None => step matches FlushStep::Drive { queue_before } && queue_before == run.waiting(
                i,
            ),
        },
        event matches FlushEvent::Driven { queue_before, outcome } ==> match outcome {
            DrivePoll::Done => if run.waiting(i) == 0 {
                step is Send
            } else if run.waiting(i) == queue_before {
                step is Pending
            } else {
                match run.first_failure(i) {
                    Some(first) => step matches FlushStep::Failed(StreamError::Terminal(text))
                        && text@ == first,
                    None => step matches FlushStep::Drive { queue_before: again } && again
                        == run.waiting(i),
                }
            },
            DrivePoll::Pending => step is Pending,
            DrivePoll::Failed(error) => step == FlushStep::Failed(error),
        },
        event matches FlushEvent::Sent(poll) ==> match poll {
            PassPoll::Ready(_) => step is Done,
            PassPoll::Pending => step is Pending,
            PassPoll::Failed(error) => step == FlushStep::Failed(error),
        },
{
    law_stream_remembers_its_end(run, i);
    law_stream_wf(run, i);
    assert(run.calls[i].leads(run.states[i], run.states[i + 1]));
}

/// What closing does: the connection is closed first, unless the session failed, with no error code
/// and the reason that the stream is closed; then all is flushed, and the stream is closed when that
/// is done.
pub proof fn law_close_goes_on(
    run: StreamRun,
    i: int,
    flush: Option<FlushPoll>,
    step: CloseStep,
)
    requires
        run.valid(),
        0 <= i < run.calls.len(),
        run.calls[i] == (StreamCall::Close { flush, step }),
    ensures
        match flush {
            None => if run.first_failure(i) is None {
                step matches CloseStep::CloseAndFlush { code, reason } && code == 0 && reason@
                    == "stream closed"@
            } else {
                step is Flush
            },
            Some(FlushPoll::Done) => step is Done,
            Some(FlushPoll::Pending) => step is Pending,
            Some(FlushPoll::Failed(error)) => step == CloseStep::Failed(error),
        },
{
    law_stream_remembers_its_end(run, i);
    assert(run.calls[i].leads(run.states[i], run.states[i + 1]));
}

/// Which kind of error each is: a closed stream is a broken pipe, a full queue would block, a packet
/// that was cut short is a write of nothing, and what the socket reported is passed on.
pub proof fn law_kinds_of_errors(error: StreamError)
    ensures
        error.io_kind() == ErrorKind::BrokenPipe <==> error is Closed,
        error.io_kind() == ErrorKind::WouldBlock <==> error is QueueFull,
        error.io_kind() == ErrorKind::WriteZero <==> error is PartialSend,
        error.io_kind() == ErrorKind::Reported <==> error is Socket,
{
}

} // verus!
