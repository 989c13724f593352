//! What a tunnel does about each event, in terms of what happened before.
use crate::forward::{ForwardAction, ForwardEvent, TunnelSession};
use crate::forward_steps;
use crate::setup::{SessionSetup, SetupAction, SetupError, SetupEvent};
use crate::setup_laws;
use crate::tunnel::{
    SessionFailure, Tunnel, TunnelAction, TunnelConfig, TunnelError, TunnelEvent, TunnelPhase,
};
use crate::tunnel_laws::{
    law_idle_packets_kept, lemma_event_keeps, lemma_set_up_since,
    lemma_whole_set_up, lemma_wf, TunnelRun,
};
use vstd::prelude::*;

verus! {

/// The event tells how the action ended.
pub open spec fn answers(action: TunnelAction, event: TunnelEvent) -> bool {
    match action {
        TunnelAction::Read => event is Read || event is ReadFailed,
        TunnelAction::Prepare => event is Material,
        TunnelAction::OpenLink(_) => event is LinkOpened || event is LinkFailed,
        TunnelAction::Setup(inner) => event matches TunnelEvent::Setup(answer)
            && setup_laws::answers(inner, answer),
        TunnelAction::Start { first, .. } => event matches TunnelEvent::Forward(answer)
            && forward_steps::answers(first, answer),
        TunnelAction::Forward(inner) => event matches TunnelEvent::Forward(answer)
            && forward_steps::answers(inner, answer),
        TunnelAction::Part => event is Told,
        TunnelAction::Rest { .. } => event is Rested,
        TunnelAction::Fail(_) => false,
    }
}

/// After each action the tunnel takes in exactly what answers it: every answer, as long as there is
/// room in the counters of the session that is up, and nothing else. It begins by reading the device.
pub proof fn law_answers_are_taken_in(run: TunnelRun, i: int, event: TunnelEvent)
    requires
        run.valid(),
        0 <= i < run.events.len(),
    ensures
        run.states[0].expects(event) <==> answers(TunnelAction::Read, event),
        run.states[i + 1].expects(event) <==> answers(run.actions[i], event) && (
        run.states[i + 1].phase matches TunnelPhase::Up(session) ==> session.stats.room(
            session.at_stake(event->Forward_0),
        )),
{
    let before = run.states[i];
    let after = run.states[i + 1];
    let action = run.actions[i];
    assert(before.expects(run.events[i]));
    assert(before.follows(run.events[i], after, action));
    match (before.phase, run.events[i]) {
        (TunnelPhase::SettingUp(setup), TunnelEvent::Setup(inner)) => {
            let (next, to_do) = choose|next: SessionSetup, to_do: SetupAction| #[trigger]
                setup.follows(inner, next, to_do) && before.set_up(next, to_do, after, action);
            assert(setup.follows(inner, next, to_do));
            if let TunnelEvent::Setup(answer) = event {
                setup_laws::lemma_step_answers(setup, inner, next, to_do, answer);
            }
        },
        (TunnelPhase::Up(session), TunnelEvent::Forward(inner)) => {
            let (next, to_do) = choose|next: TunnelSession, to_do: ForwardAction| #[trigger]
                session.follows(inner, next, to_do) && before.forwarded(next, to_do, after, action);
            assert(session.follows(inner, next, to_do));
            if let TunnelEvent::Forward(answer) = event {
                forward_steps::lemma_step_answers(session, inner, next, to_do, answer);
            }
        },
        _ => {},
    }
}

/// A tunnel can be kept going with every keepalive period but none at all, and keeps to it. It begins
/// by reading the device, with nothing waiting.
pub proof fn law_tunnel_starts_idle(config: TunnelConfig, r: Result<Tunnel, TunnelError>)
    requires
        Tunnel::started(config, r),
    ensures
        r is Ok <==> config.keepalive_period@ != 0,
        r matches Err(error) ==> error == TunnelError::ZeroKeepalive,
        r matches Ok(tunnel) ==> {
            &&& tunnel.keepalive == config.keepalive_period
            &&& (TunnelRun { states: seq![tunnel], events: Seq::empty(), actions: Seq::empty() }).valid()
            &&& forall|event: TunnelEvent| #[trigger]
                tunnel.expects(event) <==> event is Read || event is ReadFailed
        },
{
}

/// A tunnel gives up only for the device, and only while no session is up: if the device is closed
/// or cannot be read when there is no traffic to carry. Whatever happens to a session, the tunnel
/// goes on.
pub proof fn law_gives_up_only_for_the_device(run: TunnelRun, i: int)
    requires
        run.valid(),
        0 <= i < run.events.len(),
    ensures
        run.actions[i] is Fail <==> run.events[i] is ReadFailed || (
        run.events[i] matches TunnelEvent::Read(packets) && packets@.len() == 0),
        run.actions[i] is Fail ==> i == 0 || run.actions[i - 1] is Read,
        run.events[i] matches TunnelEvent::ReadFailed(text) ==> run.actions[i] == TunnelAction::Fail(
            TunnelError::IdleRead(text),
        ),
        run.events[i] matches TunnelEvent::Read(packets) ==> if packets@.len() == 0 {
            run.actions[i] == TunnelAction::Fail(TunnelError::DeviceClosed)
        } else {
            run.actions[i] is Prepare
        },
        run.states[i + 1].phase is Over <==> run.actions[i] is Fail,
{
    assert(run.states[i].expects(run.events[i]));
    assert(run.states[i].follows(run.events[i], run.states[i + 1], run.actions[i]));
    if i > 0 {
        law_answers_are_taken_in(run, i - 1, run.events[i]);
    }
}

impl TunnelRun {
    /// With event `i` the tunnel tells of this failure and rests for a second.
    pub open spec fn rests_at(self, i: int, failure: SessionFailure) -> bool {
        &&& self.actions[i] matches TunnelAction::Rest { delay, failure: told }
        &&& delay@ == 1_000_000_000
        &&& told == failure
    }
}

/// Every way in which a session can fail while it is up makes the tunnel rest for a second, with that
/// very error, and none makes it give up: the device, the socket, the keepalive, the transport. If the
/// connection is closed, the user is told. Anything else leaves the session up.
pub proof fn law_failed_session_rests(run: TunnelRun, i: int, inner: ForwardEvent)
    requires
        run.valid(),
        0 <= i < run.events.len(),
        run.events[i] == TunnelEvent::Forward(inner),
    ensures
        match inner {
            ForwardEvent::UdpFailed(text) => run.rests_at(
                i,
                SessionFailure::Forward(TunnelError::Udp(text)),
            ),
            ForwardEvent::BatchFailed(text) => run.rests_at(
                i,
                SessionFailure::Forward(TunnelError::Read(text)),
            ),
            ForwardEvent::WriteFailed(text) => run.rests_at(
                i,
                SessionFailure::Forward(TunnelError::Write(text)),
            ),
            ForwardEvent::KeepaliveFailed(text) => run.rests_at(
                i,
                SessionFailure::Forward(TunnelError::Keepalive(text)),
            ),
            ForwardEvent::FlushFailed(error) => run.rests_at(
                i,
                SessionFailure::Forward(TunnelError::Burst(error)),
            ),
            ForwardEvent::Batch(packets) => if packets@.len() == 0 {
                run.rests_at(i, SessionFailure::Forward(TunnelError::DeviceClosed))
            } else {
                run.actions[i] is Forward
            },
            ForwardEvent::Closed(closed) => if closed {
                run.actions[i] is Part
            } else {
                run.actions[i] is Forward
            },
            _ => run.actions[i] is Forward,
        },
        run.actions[i] is Forward <==> run.states[i + 1].phase is Up,
        run.states[i + 1].pending_packets == run.states[i].pending_packets,
{
    assert(run.states[i].expects(run.events[i]));
    assert(run.states[i].follows(run.events[i], run.states[i + 1], run.actions[i]));
}

/// Whatever error a session's step ends with, the tunnel rests with it.
pub proof fn law_error_of_a_session_is_told(
    before: Tunnel,
    session: TunnelSession,
    inner: ForwardEvent,
    next: TunnelSession,
    error: TunnelError,
    after: Tunnel,
    action: TunnelAction,
)
    requires
        before.phase == TunnelPhase::Up(session),
        before.expects(TunnelEvent::Forward(inner)),
        session.follows(inner, next, ForwardAction::Fail(error)),
        before.follows(TunnelEvent::Forward(inner), after, action),
    ensures
        after.phase is Resting,
        action matches TunnelAction::Rest { delay, failure } && failure == SessionFailure::Forward(
            error,
        ) && delay@ == 1_000_000_000,
{
    let (other, to_do) = choose|other: TunnelSession, to_do: ForwardAction| #[trigger]
        session.follows(inner, other, to_do) && before.forwarded(other, to_do, after, action);
    assert(session.follows(inner, other, to_do));
}

/// Every way in which a session can fail to come up makes the tunnel rest for a second, with that
/// very error: the key material, the socket and the transport, and each step of the set-up. What does
/// not fail goes on as it should: the link is opened with the material that was made, and the set-up
/// begins by asking the transport for a packet.
pub proof fn law_failure_to_come_up_rests(run: TunnelRun, i: int)
    requires
        run.valid(),
        0 <= i < run.events.len(),
    ensures
        match run.events[i] {
            TunnelEvent::Material(Ok(material)) => run.actions[i] == TunnelAction::OpenLink(
                material,
            ),
            TunnelEvent::Material(Err(error)) => run.rests_at(i, SessionFailure::Tls(error)),
            TunnelEvent::LinkOpened => run.actions[i] == TunnelAction::Setup(
                SetupAction::MakePacket,
            ),
            TunnelEvent::LinkFailed { message, full_message } => run.rests_at(
                i,
                SessionFailure::Link { message, full_message },
            ),
            TunnelEvent::Setup(inner) => match inner {
                SetupEvent::ReceiveFailed(text) => run.actions[i] matches TunnelAction::Rest {
                    delay,
                    failure: SessionFailure::Setup(SetupError::Receive(_, told)),
                } && delay@ == 1_000_000_000 && told == text,
                SetupEvent::QuicSendFailed(text) => run.actions[i] matches TunnelAction::Rest {
                    delay,
                    failure: SessionFailure::Setup(SetupError::Quic(_, told)),
                } && delay@ == 1_000_000_000 && told == text,
                SetupEvent::SocketSendFailed(text) => run.actions[i] matches TunnelAction::Rest {
                    delay,
                    failure: SessionFailure::Setup(SetupError::Socket(_, told)),
                } && delay@ == 1_000_000_000 && told == text,
                SetupEvent::H3ConfigFailed(text) => run.rests_at(
                    i,
                    SessionFailure::Setup(SetupError::H3Config(text)),
                ),
                SetupEvent::H3ConnectionFailed(text) => run.rests_at(
                    i,
                    SessionFailure::Setup(SetupError::H3Connection(text)),
                ),
                SetupEvent::RequestFailed(text) => run.rests_at(
                    i,
                    SessionFailure::Setup(SetupError::Request(text)),
                ),
                SetupEvent::H3Failed(text) => run.rests_at(
                    i,
                    SessionFailure::Setup(SetupError::H3Poll(text)),
                ),
                _ => run.actions[i] is Setup || run.actions[i] is Start || (
                run.actions[i] matches TunnelAction::Rest { delay, failure } && failure is Setup
                    && delay@ == 1_000_000_000),
            },
            _ => true,
        },
        !(run.actions[i] is Start) && !(run.events[i] is Read) ==> run.states[i + 1].pending_packets
            == run.states[i].pending_packets,
        run.states[i + 1].keepalive == run.states[i].keepalive,
{
    let before = run.states[i];
    let after = run.states[i + 1];
    let action = run.actions[i];
    assert(before.expects(run.events[i]));
    assert(before.follows(run.events[i], after, action));
    if let TunnelEvent::Setup(inner) = run.events[i] {
        let setup = before.phase->SettingUp_0;
        let (next, to_do) = choose|next: SessionSetup, to_do: SetupAction| #[trigger]
            setup.follows(inner, next, to_do) && before.set_up(next, to_do, after, action);
        assert(setup.follows(inner, next, to_do));
    }
}

/// What a set-up's last step says is what the tunnel does: a set-up that ends well brings a session up
/// on the flow that it found, one that fails makes the tunnel rest for a second with that very error,
/// and otherwise the step is passed on as it is.
pub proof fn law_set_up_decides(run: TunnelRun, i: int)
    requires
        run.valid(),
        0 <= i < run.events.len(),
        run.events[i] is Setup,
    ensures
        run.states[i].phase matches TunnelPhase::SettingUp(setup) && exists|
            next: SessionSetup,
            to_do: SetupAction,
        | #[trigger]
            setup.follows(run.events[i]->Setup_0, next, to_do) && match to_do {
                SetupAction::Finish { flow_id } => run.actions[i] matches TunnelAction::Start {
                    flow_id: flow,
                    ..
                } && flow == flow_id,
                SetupAction::Fail(error) => run.rests_at(i, SessionFailure::Setup(error)),
                _ => run.actions[i] == TunnelAction::Setup(to_do),
            },
{
    assert(run.states[i].expects(run.events[i]));
    assert(run.states[i].follows(run.events[i], run.states[i + 1], run.actions[i]));
    let setup = run.states[i].phase->SettingUp_0;
    let (next, to_do) = choose|next: SessionSetup, to_do: SetupAction| #[trigger]
        setup.follows(run.events[i]->Setup_0, next, to_do) && run.states[i].set_up(
            next,
            to_do,
            run.states[i + 1],
            run.actions[i],
        );
    assert(setup.follows(run.events[i]->Setup_0, next, to_do));
}

/// The flow of a session is the number of the stream on which its set-up sent the CONNECT request,
/// divided by four, and the session has the tunnel's keepalive period.
pub proof fn law_flow_is_that_of_the_request(run: TunnelRun, k: int, flow_id: u64)
    requires
        run.valid(),
        0 <= k < run.events.len(),
        run.actions[k] matches TunnelAction::Start { flow_id: flow, .. } && flow == flow_id,
    ensures
        exists|j: int|
            run.set_up_since(k) <= j < k && (#[trigger] run.events[j] matches TunnelEvent::Setup(
                SetupEvent::RequestSent(stream_id),
            ) && 4 * flow_id <= stream_id < 4 * flow_id + 4),
        run.states[k + 1].phase matches TunnelPhase::Up(session) && session.flow_id == flow_id
            && session.keepalive == run.states[0].keepalive,
{
    lemma_wf(run, k);
    assert(run.states[k].expects(run.events[k]));
    lemma_event_keeps(run.states[k], run.events[k], run.states[k + 1], run.actions[k]);
    lemma_set_up_since(run, k);
    lemma_keepalive(run, k);
    let start = run.set_up_since(k);
    let full = lemma_whole_set_up(run, k);
    let last = full.events.len() - 1;
    assert(full.states[last].expects(full.events[last]));
    assert(full.states[last].follows(full.events[last], full.states.last(), full.actions.last()));
    assert(full.actions.last() is Finish);
    setup_laws::law_finish_is_decided(full, last);
    if let SetupEvent::Status { established, closed } = full.events[last] {
        setup_laws::law_session_is_up_iff_accepted(full, last, established, closed);
    }
    let x = choose|x: int|
        0 <= x < last && (#[trigger] full.events[x] matches SetupEvent::RequestSent(stream_id) && 4
            * flow_id <= stream_id < 4 * flow_id + 4);
    assert(full.events[x] is RequestSent);
    assert(run.events[start + x] == TunnelEvent::Setup(full.events[x]));
}

/// The keepalive period stays.
proof fn lemma_keepalive(run: TunnelRun, n: int)
    requires
        run.valid(),
        0 <= n < run.states.len(),
    ensures
        run.states[n].keepalive == run.states[0].keepalive,
    decreases n,
{
    if n > 0 {
        lemma_keepalive(run, n - 1);
        assert(run.states[n - 1].expects(run.events[n - 1]));
        law_failure_to_come_up_rests(run, n - 1);
    }
}

/// After a rest, and after the user was told that a session ended, the tunnel goes on: with another
/// session if packets that were read have not been taken by one, else with the device.
pub proof fn law_tunnel_goes_on(run: TunnelRun, i: int)
    requires
        run.valid(),
        0 <= i < run.events.len(),
        run.events[i] is Rested || run.events[i] is Told,
    ensures
        if run.taken(i).len() < run.read(i).len() {
            run.actions[i] is Prepare
        } else {
            run.actions[i] is Read
        },
{
    law_idle_packets_kept(run, i);
    assert(run.states[i].expects(run.events[i]));
    assert(run.states[i].follows(run.events[i], run.states[i + 1], run.actions[i]));
}

/// A new session is brought up, or the device is read, right after each session that failed or ended:
/// the tunnel never stops for one.
pub proof fn law_failure_is_followed_by_another_try(run: TunnelRun, i: int)
    requires
        run.valid(),
        0 <= i < run.events.len() - 1,
        run.actions[i] is Rest || run.actions[i] is Part,
    ensures
        run.actions[i + 1] is Prepare || run.actions[i + 1] is Read,
{
    assert(run.events[i + 1] is Rested || run.events[i + 1] is Told) by {
        assert(run.states[i + 1].expects(run.events[i + 1]));
        law_answers_are_taken_in(run, i, run.events[i + 1]);
    }
    law_tunnel_goes_on(run, i + 1);
}

} // verus!
