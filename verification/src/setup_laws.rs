//! What holds of every run of a set-up, in terms of what happened and what was done about it.
use crate::clock::Duration;
use crate::keys::certificate_spki;
use crate::net::SocketAddress;
use crate::setup::{
    has_status, refusal, setup_wait, Dialect, Header, Phase, SessionSetup, SetupAction, SetupError, SetupEvent,
    SetupRun, Stage,
};
use vstd::prelude::*;
use vstd::utf8::{decode_utf8, valid_utf8};

verus! {

/// The event tells how the action ended.
pub open spec fn answers(action: SetupAction, event: SetupEvent) -> bool {
    match action {
        SetupAction::MakePacket => event is PacketMade || event is NothingToSend || event
            is QuicSendFailed,
        SetupAction::SendPacket { .. } => event is PacketSent || event is SocketSendFailed,
        SetupAction::Wait => event is Datagram || event is ReceiveFailed || event is TimerFired,
        SetupAction::Deliver(_) => event is Told,
        SetupAction::Expire => event is Told,
        SetupAction::ReadStatus => event is Status,
        SetupAction::ReadPeerCertificate => event is PeerCertificate,
        SetupAction::SendRequest => event is RequestSent || event is H3ConfigFailed || event
            is H3ConnectionFailed || event is RequestFailed,
        SetupAction::PollH3 => event is Headers || event is OtherH3Event || event is H3Done || event
            is H3Failed,
        SetupAction::Finish { .. } => false,
        SetupAction::Fail(_) => false,
    }
}

/// The state that an action leaves takes in what answers the action.
pub(crate) proof fn lemma_step_answers(
    before: SessionSetup,
    event: SetupEvent,
    after: SessionSetup,
    action: SetupAction,
    answer: SetupEvent,
)
    requires
        before.expects(event),
        before.follows(event, after, action),
    ensures
        after.expects(answer) <==> answers(action, answer),
{
}

/// After each action the set-up takes in exactly what answers it: every answer, and nothing else.
/// It begins by asking the transport for a packet.
pub proof fn law_answers_are_taken_in(run: SetupRun, i: int, event: SetupEvent)
    requires
        run.valid(),
        0 <= i < run.events.len(),
    ensures
        run.states[0].expects(event) <==> answers(SetupAction::MakePacket, event),
        run.states[i + 1].expects(event) <==> answers(run.actions[i], event),
{
    assert(run.states[i].expects(run.events[i]));
    lemma_step_answers(run.states[i], run.events[i], run.states[i + 1], run.actions[i], event);
}

impl SetupRun {
    /// The packets that the transport made in the first `n` events, with their lengths and
    /// addresses.
    pub open spec fn packets_made(self, n: int) -> Seq<(usize, SocketAddress)>
        decreases n,
    {
        if n <= 0 {
            Seq::empty()
        } else {
            self.packets_made(n - 1) + match self.events[n - 1] {
                SetupEvent::PacketMade { len, to } => seq![(len, to)],
                _ => Seq::empty(),
            }
        }
    }

    /// The packets that the socket was asked to send in the first `n` events, with their lengths
    /// and addresses.
    pub open spec fn packets_sent(self, n: int) -> Seq<(usize, SocketAddress)>
        decreases n,
    {
        if n <= 0 {
            Seq::empty()
        } else {
            self.packets_sent(n - 1) + match self.actions[n - 1] {
                SetupAction::SendPacket { len, to } => seq![(len, to)],
                _ => Seq::empty(),
            }
        }
    }

    /// The stage that the set-up has reached after the first `n` events: the first packets are
    /// sent until it waits for the first time, the handshake lasts until the CONNECT request is
    /// out, and that is sent until it waits again.
    pub open spec fn stage_at(self, n: int) -> Stage
        decreases n,
    {
        if n <= 0 {
            Stage::Opening
        } else if self.events[n - 1] is RequestSent {
            Stage::Request
        } else if self.actions[n - 1] is Wait {
            match self.stage_at(n - 1) {
                Stage::Opening => Stage::Handshake,
                Stage::Request => Stage::Response,
                stage => stage,
            }
        } else {
            self.stage_at(n - 1)
        }
    }

    /// How often the answer to the CONNECT request has been waited for in the first `n` events.
    pub open spec fn waits(self, n: int) -> int
        decreases n,
    {
        if n <= 0 {
            0
        } else {
            self.waits(n - 1) + if self.actions[n - 1] is Wait && self.stage_at(n)
                == Stage::Response {
                1int
            } else {
                0
            }
        }
    }

    /// With event `i` headers arrived on the stream of the CONNECT request. It was sent with an
    /// earlier event.
    pub open spec fn answered_at(self, i: int) -> bool {
        &&& 0 <= i < self.events.len()
        &&& self.events[i] matches SetupEvent::Headers { stream_id, .. }
        &&& exists|k: int|
            0 <= k < i && (#[trigger] self.events[k]) == SetupEvent::RequestSent(stream_id)
    }
}

/// The header is a status.
pub open spec fn is_status(header: Header) -> bool {
    header.0@ == seq![58u8, 115, 116, 97, 116, 117, 115]
}

/// The header's value is text that begins with a 2.
pub open spec fn says_yes(header: Header) -> bool {
    &&& valid_utf8(header.1@)
    &&& decode_utf8(header.1@).len() > 0
    &&& decode_utf8(header.1@)[0] == '2'
}

/// The header is a status that does not begin with a 2.
pub open spec fn says_no(header: Header) -> bool {
    is_status(header) && !says_yes(header)
}

/// What counts as a refusal: the first status that is not text that begins with a 2, and none if
/// every status is. It is quoted as it is, or with a question mark where it is no text.
pub proof fn law_first_bad_status_refuses(list: Seq<Header>)
    ensures
        has_status(list) <==> exists|i: int| 0 <= i < list.len() && is_status(#[trigger] list[i]),
        refusal(list) is None <==> forall|i: int|
            0 <= i < list.len() ==> !says_no(#[trigger] list[i]),
        refusal(list) matches Some(text) ==> exists|i: int|
            0 <= i < list.len() && says_no(#[trigger] list[i]) && (forall|k: int|
                0 <= k < i ==> !says_no(#[trigger] list[k])) && text == if valid_utf8(list[i].1@) {
                decode_utf8(list[i].1@)
            } else {
                "?"@
            },
    decreases list.len(),
{
    reveal_strlit("?");
    if list.len() > 0 {
        let front = list.drop_last();
        law_first_bad_status_refuses(front);
        assert(forall|i: int| 0 <= i < front.len() ==> front[i] == list[i]);
        let n = list.len() - 1;
        assert(list.last() == list[n]);
        if refusal(front) is Some {
            let i = choose|i: int|
                0 <= i < front.len() && says_no(#[trigger] front[i]) && (forall|k: int|
                    0 <= k < i ==> !says_no(#[trigger] front[k])) && refusal(front)->0
                    == if valid_utf8(front[i].1@) {
                    decode_utf8(front[i].1@)
                } else {
                    "?"@
                };
            assert(list[i] == front[i] && says_no(list[i]));
            assert forall|k: int| 0 <= k < i implies !says_no(#[trigger] list[k]) by {
                assert(list[k] == front[k]);
            }
        } else {
            assert forall|k: int| 0 <= k < n implies !says_no(#[trigger] list[k]) by {
                assert(list[k] == front[k]);
            }
            if says_no(list[n]) {
                assert(refusal(list) is Some);
            }
        }
    }
}

/// What the state remembers of the run.
proof fn lemma_memory(run: SetupRun, n: int)
    requires
        run.valid(),
        0 <= n < run.states.len(),
    ensures
        run.states[n].dialect == run.states[0].dialect,
        run.states[n].pinned == run.states[0].pinned,
        match run.states[n].phase {
            Phase::Making(stage) => stage == run.stage_at(n),
            Phase::Sending(stage) => stage == run.stage_at(n),
            Phase::Waiting(stage) => stage == run.stage_at(n) && (stage == Stage::Handshake || stage
                == Stage::Response),
            Phase::Telling(stage) => stage == run.stage_at(n) && (stage == Stage::Handshake || stage
                == Stage::Response),
            Phase::CheckingHandshake => run.stage_at(n) == Stage::Handshake,
            Phase::CheckingPeer => run.stage_at(n) == Stage::Handshake,
            Phase::Requesting => run.stage_at(n) == Stage::Handshake,
            Phase::Polling => run.stage_at(n) == Stage::Response,
            Phase::CheckingResponse => run.stage_at(n) == Stage::Response,
            Phase::Ready => run.stage_at(n) == Stage::Response,
            Phase::Failed => true,
        },
        run.stage_at(n) == Stage::Response && !(run.states[n].phase is Failed) ==> run.waits(n)
            == run.states[n].round + 1,
        run.stage_at(n) != Stage::Response ==> run.waits(n) == 0 && run.states[n].round == 0,
        0 <= run.waits(n) <= 100,
        run.states[n].accepted <==> exists|j: int| 0 <= j < n && #[trigger] run.accepted_at(j),
        run.stage_at(n) == Stage::Request || run.stage_at(n) == Stage::Response ==> exists|k: int|
            0 <= k < n && (#[trigger] run.events[k]) == SetupEvent::RequestSent(
                run.states[n].stream_id,
            ),
        run.stage_at(n) == Stage::Opening || run.stage_at(n) == Stage::Handshake ==> forall|k: int|
            0 <= k < n ==> !((#[trigger] run.events[k]) is RequestSent),
        forall|k: int|
            0 <= k < n && (#[trigger] run.events[k]) is RequestSent ==> run.events[k]
                == SetupEvent::RequestSent(run.states[n].stream_id),
    decreases n,
{
    if n > 0 {
        lemma_memory(run, n - 1);
        let before = run.states[n - 1];
        let after = run.states[n];
        let event = run.events[n - 1];
        assert(before.expects(event));
        assert(before.follows(event, after, run.actions[n - 1]));
        if exists|j: int| 0 <= j < n - 1 && #[trigger] run.accepted_at(j) {
            let j = choose|j: int| 0 <= j < n - 1 && #[trigger] run.accepted_at(j);
            assert(run.accepted_at(j));
        }
        if after.accepted && !before.accepted {
            assert(run.accepted_at(n - 1));
        }
        if exists|j: int| 0 <= j < n && #[trigger] run.accepted_at(j) {
            let j = choose|j: int| 0 <= j < n && #[trigger] run.accepted_at(j);
            assert(run.accepted_at(j));
            if j == n - 1 {
                assert(after.accepted);
            }
        }
        if event is RequestSent {
            assert(run.events[n - 1] == SetupEvent::RequestSent(after.stream_id));
        } else if run.stage_at(n) == Stage::Request || run.stage_at(n) == Stage::Response {
            let k = choose|k: int|
                0 <= k < n - 1 && (#[trigger] run.events[k]) == SetupEvent::RequestSent(
                    before.stream_id,
                );
            assert(run.events[k] == SetupEvent::RequestSent(after.stream_id));
        }
    }
}

/// Each packet that the transport makes is sent, at every stage: the packets that the socket is
/// asked to send are those that were made, in order, each with its length and to its address. And
/// none is written over: the transport is asked for another only after the one before was sent.
pub proof fn law_each_packet_is_sent(run: SetupRun, n: int)
    requires
        run.valid(),
        0 <= n < run.states.len(),
    ensures
        run.packets_sent(n) == run.packets_made(n),
        n > 0 && run.events[n - 1] is PacketMade ==> run.actions[n - 1] is SendPacket,
        n > 1 && run.actions[n - 2] is SendPacket && run.actions[n - 1] is MakePacket
            ==> run.events[n - 1] is PacketSent,
    decreases n,
{
    if n > 0 {
        law_each_packet_is_sent(run, n - 1);
        let before = run.states[n - 1];
        assert(before.expects(run.events[n - 1]));
        assert(before.follows(run.events[n - 1], run.states[n], run.actions[n - 1]));
        assert(run.packets_sent(n) =~= run.packets_made(n));
        if n > 1 {
            assert(run.events[n - 2] is PacketMade || !(run.events[n - 2] is PacketMade));
            law_answers_are_taken_in(run, n - 2, run.events[n - 1]);
        }
    }
}

/// The transport is heard out: what it has to send is asked for again after each packet, until it
/// has nothing more, before anything else is done. Only a tunnel opens with a single packet.
pub proof fn law_transport_is_drained(run: SetupRun, i: int)
    requires
        run.valid(),
        0 <= i < run.events.len(),
    ensures
        run.events[i] is PacketSent ==> if run.states[0].dialect == Dialect::Tunnel && run.stage_at(
            i,
        ) == Stage::Opening {
            run.actions[i] is Wait
        } else {
            run.actions[i] is MakePacket
        },
        run.events[i] is NothingToSend ==> match run.stage_at(i) {
            Stage::Opening => if run.states[0].dialect == Dialect::Tunnel {
                run.actions[i] matches SetupAction::Fail(SetupError::Quic(stage, text)) && stage
                    == Stage::Opening && text@ == "Done"@
            } else {
                run.actions[i] is Wait
            },
            Stage::Handshake => run.actions[i] is ReadStatus,
            Stage::Request => run.actions[i] is Wait,
            Stage::Response => run.actions[i] is ReadStatus,
        },
{
    lemma_memory(run, i);
    assert(run.states[i].expects(run.events[i]));
    assert(run.states[i].follows(run.events[i], run.states[i + 1], run.actions[i]));
}

/// The transport is told of everything: of each datagram, with its length, and of each time its
/// timer ran out, and of nothing else. Then it is asked for packets, or, while the answer to the
/// CONNECT request is waited for, HTTP/3 is asked for events first.
pub proof fn law_transport_is_told(run: SetupRun, i: int)
    requires
        run.valid(),
        0 <= i < run.events.len(),
    ensures
        run.events[i] matches SetupEvent::Datagram(len) ==> run.actions[i] == SetupAction::Deliver(
            len,
        ),
        run.actions[i] matches SetupAction::Deliver(len) ==> run.events[i] == SetupEvent::Datagram(
            len,
        ),
        run.events[i] is TimerFired <==> run.actions[i] is Expire,
        run.events[i] is Told ==> if run.stage_at(i) == Stage::Response {
            run.actions[i] is PollH3
        } else {
            run.actions[i] is MakePacket
        },
{
    lemma_memory(run, i);
    assert(run.states[i].expects(run.events[i]));
    assert(run.states[i].follows(run.events[i], run.states[i + 1], run.actions[i]));
}

/// The handshake is waited for until it is over or the connection is closed, and then the server's
/// key is looked at.
pub proof fn law_handshake_is_awaited(run: SetupRun, i: int, established: bool, closed: bool)
    requires
        run.valid(),
        0 <= i < run.events.len(),
        run.events[i] == (SetupEvent::Status { established, closed }),
        run.stage_at(i) == Stage::Handshake,
    ensures
        established ==> run.actions[i] is ReadPeerCertificate,
        !established && closed ==> run.actions[i] == SetupAction::Fail(
            SetupError::Closed(Stage::Handshake),
        ),
        !established && !closed ==> run.actions[i] is Wait,
{
    lemma_memory(run, i);
    assert(run.states[i].expects(run.events[i]));
    assert(run.states[i].follows(run.events[i], run.states[i + 1], run.actions[i]));
}

/// The CONNECT request goes out exactly after the server showed a certificate of the pinned key.
pub proof fn law_request_iff_pinned(run: SetupRun, i: int)
    requires
        run.valid(),
        0 <= i < run.events.len(),
    ensures
        run.actions[i] is SendRequest <==> (run.events[i] matches SetupEvent::PeerCertificate(Some(der))
            && certificate_spki(der@) == Some(run.states[0].pinned@)),
        run.events[i] matches SetupEvent::PeerCertificate(None) ==> run.actions[i]
            == SetupAction::Fail(SetupError::NoCertificate),
        run.events[i] matches SetupEvent::PeerCertificate(Some(der)) ==> (certificate_spki(der@)
            != Some(run.states[0].pinned@) ==> run.actions[i] == SetupAction::Fail(
            SetupError::KeyMismatch,
        )),
        run.events[i] is RequestSent ==> run.actions[i] is MakePacket,
{
    lemma_memory(run, i);
    assert(run.states[i].expects(run.events[i]));
    assert(run.states[i].follows(run.events[i], run.states[i + 1], run.actions[i]));
}

/// HTTP/3 is heard out: it is asked for events until it has none, and then the transport is asked
/// for packets. Headers on the stream of the CONNECT request that hold a status other than one that
/// begins with a 2 end the set-up, with the first such status; no other event does.
pub proof fn law_http_is_heard_out(run: SetupRun, i: int)
    requires
        run.valid(),
        0 <= i < run.events.len(),
    ensures
        run.events[i] is OtherH3Event ==> run.actions[i] is PollH3,
        run.events[i] is H3Done ==> run.actions[i] is MakePacket,
        run.events[i] matches SetupEvent::Headers { list, .. } ==> if run.answered_at(i) && (
        exists|k: int| 0 <= k < list@.len() && says_no(#[trigger] list@[k])) {
            &&& run.actions[i] matches SetupAction::Fail(SetupError::Rejected(status))
            &&& exists|k: int|
                0 <= k < list@.len() && says_no(#[trigger] list@[k]) && (forall|m: int|
                    0 <= m < k ==> !says_no(#[trigger] list@[m])) && status@ == if valid_utf8(
                    list@[k].1@,
                ) {
                    decode_utf8(list@[k].1@)
                } else {
                    "?"@
                }
        } else {
            run.actions[i] is PollH3
        },
        run.actions[i] matches SetupAction::Fail(SetupError::Rejected(_)) ==> run.answered_at(i),
{
    lemma_memory(run, i);
    assert(run.states[i].expects(run.events[i]));
    assert(run.states[i].follows(run.events[i], run.states[i + 1], run.actions[i]));
    if let SetupEvent::Headers { stream_id, list } = run.events[i] {
        law_first_bad_status_refuses(list@);
        if stream_id == run.states[i].stream_id {
            assert(run.answered_at(i));
        }
        assert(run.answered_at(i) ==> stream_id == run.states[i].stream_id);
    }
}

/// When a session is up: exactly when, after a round of waiting, the server has answered the CONNECT
/// request with headers that hold a status, every one of which begins with a 2. The flow is the
/// number of the request's stream, divided by four. Without such an answer the set-up fails if the
/// connection is closed, or after the hundredth round, and else waits for another round.
pub proof fn law_session_is_up_iff_accepted(run: SetupRun, i: int, established: bool, closed: bool)
    requires
        run.valid(),
        0 <= i < run.events.len(),
        run.events[i] == (SetupEvent::Status { established, closed }),
        run.stage_at(i) == Stage::Response,
    ensures
        ({
            let accepted = exists|j: int|
                0 <= j < i && run.answered_at(j) && (run.events[j] matches SetupEvent::Headers {
                    list,
                    ..
                } && (exists|k: int| 0 <= k < list@.len() && is_status(#[trigger] list@[k]))
                    && (forall|k: int| 0 <= k < list@.len() ==> !says_no(#[trigger] list@[k])));
            if accepted {
                run.actions[i] matches SetupAction::Finish { flow_id } && exists|k: int|
                    0 <= k < i && (#[trigger] run.events[k] matches SetupEvent::RequestSent(
                        stream_id,
                    ) && 4 * flow_id <= stream_id < 4 * flow_id + 4)
            } else if closed {
                run.actions[i] == SetupAction::Fail(SetupError::Closed(Stage::Response))
            } else if run.waits(i) >= 100 {
                run.actions[i] == SetupAction::Fail(SetupError::TimedOut)
            } else {
                run.actions[i] is Wait
            }
        }),
        run.waits(i + 1) <= 100,
{
    lemma_memory(run, i);
    lemma_memory(run, i + 1);
    let state = run.states[i];
    assert(state.expects(run.events[i]));
    assert(state.follows(run.events[i], run.states[i + 1], run.actions[i]));
    assert forall|j: int| 0 <= j < i implies (#[trigger] run.accepted_at(j) <==> run.answered_at(j)
        && (run.events[j] matches SetupEvent::Headers { list, .. } && (exists|k: int|
        0 <= k < list@.len() && is_status(#[trigger] list@[k])) && (forall|k: int|
        0 <= k < list@.len() ==> !says_no(#[trigger] list@[k])))) by {
        lemma_memory(run, j);
        assert(run.states[j].expects(run.events[j]));
        if let SetupEvent::Headers { stream_id, list } = run.events[j] {
            law_first_bad_status_refuses(list@);
            if stream_id == run.states[j].stream_id {
                assert(run.answered_at(j));
            }
        }
    }
    if state.accepted {
        let j = choose|j: int| 0 <= j < i && #[trigger] run.accepted_at(j);
        assert(run.answered_at(j));
        let k = choose|k: int|
            0 <= k < i && (#[trigger] run.events[k]) == SetupEvent::RequestSent(state.stream_id);
        assert(run.events[k] == SetupEvent::RequestSent(state.stream_id));
    } else {
        assert forall|j: int| 0 <= j < i && #[trigger] run.answered_at(j) implies !(run.events[j] matches SetupEvent::Headers {
            list,
            ..
        } && (exists|k: int| 0 <= k < list@.len() && is_status(#[trigger] list@[k])) && (forall|k: int|
            0 <= k < list@.len() ==> !says_no(#[trigger] list@[k]))) by {
            assert(!run.accepted_at(j));
        }
    }
}

/// A session comes up only with a look at the connection, while the answer is waited for.
pub proof fn law_finish_is_decided(run: SetupRun, i: int)
    requires
        run.valid(),
        0 <= i < run.events.len(),
        run.actions[i] is Finish,
    ensures
        run.events[i] is Status,
        run.stage_at(i) == Stage::Response,
{
    lemma_memory(run, i);
    assert(run.states[i].expects(run.events[i]));
    assert(run.states[i].follows(run.events[i], run.states[i + 1], run.actions[i]));
}

/// A datagram is waited for as long as the transport's own timer says, and a tenth of a second where it
/// has none. The flow is the number of the request's stream, divided by four.
pub proof fn law_waits_as_the_transport_says(quic: Option<Duration>, setup: SessionSetup)
    ensures
        quic matches Some(d) ==> setup_wait(quic) == d@,
        quic is None ==> 10 * setup_wait(quic) == 1_000_000_000,
        4 * setup.flow() <= setup.stream_id < 4 * setup.flow() + 4,
{
}

/// Every failure ends the set-up, with the words that came from outside and the stage in which it
/// came.
pub proof fn law_failures_are_passed_on(run: SetupRun, i: int)
    requires
        run.valid(),
        0 <= i < run.events.len(),
    ensures
        run.events[i] matches SetupEvent::QuicSendFailed(text) ==> run.actions[i]
            == SetupAction::Fail(SetupError::Quic(run.stage_at(i), text)),
        run.events[i] matches SetupEvent::SocketSendFailed(text) ==> run.actions[i]
            == SetupAction::Fail(SetupError::Socket(run.stage_at(i), text)),
        run.events[i] matches SetupEvent::ReceiveFailed(text) ==> run.actions[i]
            == SetupAction::Fail(SetupError::Receive(run.stage_at(i), text)),
        run.events[i] matches SetupEvent::H3ConfigFailed(text) ==> run.actions[i]
            == SetupAction::Fail(SetupError::H3Config(text)),
        run.events[i] matches SetupEvent::H3ConnectionFailed(text) ==> run.actions[i]
            == SetupAction::Fail(SetupError::H3Connection(text)),
        run.events[i] matches SetupEvent::RequestFailed(text) ==> run.actions[i]
            == SetupAction::Fail(SetupError::Request(text)),
        run.events[i] matches SetupEvent::H3Failed(text) ==> run.actions[i] == SetupAction::Fail(
            SetupError::H3Poll(text),
        ),
{
    lemma_memory(run, i);
    assert(run.states[i].expects(run.events[i]));
    assert(run.states[i].follows(run.events[i], run.states[i + 1], run.actions[i]));
}

} // verus!
