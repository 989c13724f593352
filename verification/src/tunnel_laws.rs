//! What holds of every run of a tunnel, whatever happens outside and however many sessions fail.
use crate::config::Config;
use crate::forward::{ForwardAction, TunnelSession};
use crate::forward_laws::{law_departures_in_order, ForwardRun};
use crate::setup::{
    admits, has_status, law_ready_means_accepted, refusal, Dialect, SessionSetup, SetupAction,
    SetupEvent, SetupRun,
};
use crate::tls::{prepared_at, TlsError, TlsMaterial};
use crate::tunnel::{SessionFailure, Tunnel, TunnelAction, TunnelEvent, TunnelPhase};
use vstd::prelude::*;

verus! {

/// The states that a tunnel went through, the events in between and what it said to do.
pub struct TunnelRun {
    pub states: Seq<Tunnel>,
    pub events: Seq<TunnelEvent>,
    pub actions: Seq<TunnelAction>,
}

impl TunnelRun {
    /// Each state follows from the one before, and the first is that of a new tunnel.
    pub open spec fn valid(self) -> bool {
        &&& self.states.len() == self.events.len() + 1
        &&& self.actions.len() == self.events.len()
        &&& self.states[0].phase is Idle
        &&& self.states[0].pending_packets@.len() == 0
        &&& forall|i: int| #![trigger self.events[i]]
            0 <= i < self.events.len() ==> self.states[i].expects(self.events[i])
                && self.states[i].follows(self.events[i], self.states[i + 1], self.actions[i])
    }

    /// The packets that were read in the first `n` events.
    pub open spec fn read(self, n: int) -> Seq<Vec<u8>>
        decreases n,
    {
        if n <= 0 {
            Seq::empty()
        } else {
            self.read(n - 1) + match self.events[n - 1] {
                TunnelEvent::Read(packets) => packets@,
                _ => Seq::empty(),
            }
        }
    }

    /// The packets that sessions took in the first `n` events: those that waited when one came up.
    pub open spec fn taken(self, n: int) -> Seq<Vec<u8>>
        decreases n,
    {
        if n <= 0 {
            Seq::empty()
        } else {
            self.taken(n - 1) + if self.actions[n - 1] is Start {
                self.states[n - 1].pending_packets@
            } else {
                Seq::empty()
            }
        }
    }

    /// The session that comes up with event `k` was made from the material of event `h`, its server
    /// showed a certificate of the pinned key with event `i`, and accepted with event `j`; all that
    /// happened in between was its set-up.
    pub open spec fn sound_start(self, h: int, i: int, j: int, k: int) -> bool {
        &&& 0 <= h < i < j <= k < self.events.len()
        &&& self.events[h] matches TunnelEvent::Material(Ok(material))
        &&& self.events[i] matches TunnelEvent::Setup(SetupEvent::PeerCertificate(certificate))
        &&& admits(material.endpoint_pub_key_spki_der@, certificate)
        &&& self.events[j] matches TunnelEvent::Setup(SetupEvent::Headers { stream_id, list })
        &&& self.states[j].phase matches TunnelPhase::SettingUp(setup)
        &&& stream_id == setup.stream_id
        &&& has_status(list@)
        &&& refusal(list@) is None
        &&& forall|x: int| #![trigger self.events[x]]
            h < x <= k ==> self.events[x] is LinkOpened || self.events[x] is Setup
    }

    /// The state in which the last set-up within the first `n` events began.
    pub open spec fn set_up_since(self, n: int) -> int
        decreases n,
    {
        if n <= 0 {
            0
        } else if self.events[n - 1] is LinkOpened {
            n
        } else {
            self.set_up_since(n - 1)
        }
    }

    /// The set-up under way after the first `n` events, from its beginning.
    pub open spec fn set_up_run(self, n: int) -> SetupRun {
        let start = self.set_up_since(n);
        SetupRun {
            states: Seq::new(
                (n - start + 1) as nat,
                |x: int| self.states[start + x].phase->SettingUp_0,
            ),
            events: Seq::new((n - start) as nat, |x: int| self.events[start + x]->Setup_0),
            actions: Seq::new((n - start) as nat, |x: int| self.actions[start + x]->Setup_0),
        }
    }
}

/// One event keeps the tunnel in order, and loses no packet.
pub(crate) proof fn lemma_event_keeps(
    before: Tunnel,
    event: TunnelEvent,
    after: Tunnel,
    action: TunnelAction,
)
    requires
        before.wf(),
        before.expects(event),
        before.follows(event, after, action),
    ensures
        after.wf(),
        action is Start ==> after.pending_packets@.len() == 0,
        !(action is Start) ==> after.pending_packets@ == before.pending_packets@ + match event {
            TunnelEvent::Read(packets) => packets@,
            _ => Seq::empty(),
        },
        action is Start ==> before.phase is SettingUp && event is Setup && after.phase is Up,
        action is Prepare ==> after.pending_packets@.len() > 0,
{
    match (before.phase, event) {
        (TunnelPhase::SettingUp(setup), TunnelEvent::Setup(inner)) => {
            let (next, to_do) = choose|next: SessionSetup, to_do: SetupAction| #[trigger]
                setup.follows(inner, next, to_do) && before.set_up(next, to_do, after, action);
            assert(setup.follows(inner, next, to_do) && before.set_up(next, to_do, after, action));
            assert(before.pending_packets@ + Seq::<Vec<u8>>::empty() =~= before.pending_packets@);
        },
        (TunnelPhase::Up(session), TunnelEvent::Forward(inner)) => {
            assert(before.pending_packets@ + Seq::<Vec<u8>>::empty() =~= before.pending_packets@);
        },
        (TunnelPhase::Idle, TunnelEvent::Read(packets)) => {
            assert(packets@.len() == 0 ==> before.pending_packets@ + packets@
                =~= before.pending_packets@);
        },
        _ => {
            assert(before.pending_packets@ + Seq::<Vec<u8>>::empty() =~= before.pending_packets@);
        },
    }
}

/// Every state of a run is in order.
pub(crate) proof fn lemma_wf(run: TunnelRun, n: int)
    requires
        run.valid(),
        0 <= n < run.states.len(),
    ensures
        run.states[n].wf(),
    decreases n,
{
    if n > 0 {
        lemma_wf(run, n - 1);
        lemma_event_keeps(
            run.states[n - 1],
            run.events[n - 1],
            run.states[n],
            run.actions[n - 1],
        );
    }
}

/// No packet that was read while no session was up is lost, doubled or overtaken, however many
/// sessions fail before one is up: those that sessions took and then those that wait are, in
/// order, those that were read.
pub proof fn law_idle_packets_kept(run: TunnelRun, n: int)
    requires
        run.valid(),
        0 <= n < run.states.len(),
    ensures
        run.read(n) == run.taken(n) + run.states[n].pending_packets@,
    decreases n,
{
    if n > 0 {
        law_idle_packets_kept(run, n - 1);
        lemma_wf(run, n - 1);
        let before = run.states[n - 1];
        let event = run.events[n - 1];
        assert(before.expects(event));
        lemma_event_keeps(before, event, run.states[n], run.actions[n - 1]);
        assert(run.read(n) =~= run.taken(n) + run.states[n].pending_packets@);
    } else {
        assert(run.read(n) =~= run.taken(n) + run.states[n].pending_packets@);
    }
}

/// Whatever fails before a session is up, the packets go on waiting: where none comes up between
/// two states, what waited in the first still waits in the second, ahead of what was read since,
/// and nothing was taken.
pub proof fn law_failed_setup_keeps_packets(run: TunnelRun, i: int, j: int)
    requires
        run.valid(),
        0 <= i <= j < run.states.len(),
        forall|x: int| i <= x < j ==> !((#[trigger] run.actions[x]) is Start),
    ensures
        run.states[i].pending_packets@.is_prefix_of(run.states[j].pending_packets@),
        run.taken(j) == run.taken(i),
    decreases j - i,
{
    if i < j {
        law_failed_setup_keeps_packets(run, i, j - 1);
        lemma_wf(run, j - 1);
        assert(!(run.actions[j - 1] is Start));
        lemma_event_keeps(
            run.states[j - 1],
            run.events[j - 1],
            run.states[j],
            run.actions[j - 1],
        );
        assert(run.taken(j) =~= run.taken(i));
    }
}

/// A session that comes up takes all the packets that wait, in order, and sends them first; none of
/// them waits any longer.
pub proof fn law_session_takes_what_waits(run: TunnelRun, k: int, flow_id: u64)
    requires
        run.valid(),
        0 <= k < run.events.len(),
        run.actions[k] matches TunnelAction::Start { flow_id: flow, .. } && flow == flow_id,
    ensures
        run.states[k + 1].pending_packets@.len() == 0,
        run.taken(k + 1) == run.taken(k) + run.states[k].pending_packets@,
        run.states[k + 1].phase matches TunnelPhase::Up(session) && session.begun(
            flow_id as nat,
            run.states[k].keepalive,
            run.states[k].pending_packets@,
            run.actions[k]->first,
        ),
{
    lemma_wf(run, k);
    let before = run.states[k];
    lemma_event_keeps(before, run.events[k], run.states[k + 1], run.actions[k]);
    let setup = before.phase->SettingUp_0;
    let inner = run.events[k]->Setup_0;
    let (next, to_do) = choose|next: SessionSetup, to_do: SetupAction| #[trigger]
        setup.follows(inner, next, to_do) && before.set_up(
            next,
            to_do,
            run.states[k + 1],
            run.actions[k],
        );
    assert(setup.follows(inner, next, to_do));
}

/// A session is begun only on demand: whenever one is, packets wait for it.
pub proof fn law_session_on_demand(run: TunnelRun, i: int)
    requires
        run.valid(),
        0 <= i < run.events.len(),
        run.actions[i] is Prepare,
    ensures
        run.states[i + 1].pending_packets@.len() > 0,
{
    lemma_wf(run, i);
    lemma_event_keeps(run.states[i], run.events[i], run.states[i + 1], run.actions[i]);
}

/// What came before a set-up under way: its material and the opening of its link, then nothing but
/// its own events.
pub(crate) proof fn lemma_set_up_since(run: TunnelRun, n: int)
    requires
        run.valid(),
        0 <= n < run.states.len(),
    ensures
        run.states[n].phase matches TunnelPhase::Connecting { pinned } ==> n > 0 && (run.events[n - 1]
            matches TunnelEvent::Material(Ok(material)) && pinned@
            == material.endpoint_pub_key_spki_der@),
        run.states[n].phase is SettingUp ==> {
            let start = run.set_up_since(n);
            &&& 2 <= start <= n
            &&& run.events[start - 1] is LinkOpened
            &&& run.states[start].phase matches TunnelPhase::SettingUp(setup)
            &&& setup.fresh()
            &&& run.events[start - 2] matches TunnelEvent::Material(Ok(material))
            &&& setup.pinned@ == material.endpoint_pub_key_spki_der@
            &&& forall|x: int| #![trigger run.events[x]]
                start <= x < n ==> run.events[x] is Setup && run.states[x].phase is SettingUp
        },
    decreases n,
{
    if n > 0 {
        lemma_set_up_since(run, n - 1);
        let before = run.states[n - 1];
        let event = run.events[n - 1];
        assert(before.expects(event));
        assert(before.follows(event, run.states[n], run.actions[n - 1]));
        if run.states[n].phase is SettingUp && event is LinkOpened {
            assert(run.events[n - 2] is Material);
        }
    }
}

/// What a tunnel does while it brings a session up is a run of a set-up, of the tunnel's kind and for
/// the server with the key in the material. So what holds of every such run holds of it.
pub proof fn law_set_up_is_a_run(run: TunnelRun, n: int)
    requires
        run.valid(),
        0 <= n < run.states.len(),
        run.states[n].phase is SettingUp,
    ensures
        run.set_up_run(n).valid(),
        run.set_up_run(n).states[0].dialect == Dialect::Tunnel,
        2 <= run.set_up_since(n) <= n,
        run.events[run.set_up_since(n) - 1] is LinkOpened,
        run.events[run.set_up_since(n) - 2] matches TunnelEvent::Material(Ok(material))
            && run.set_up_run(n).states[0].pinned@ == material.endpoint_pub_key_spki_der@,
        run.set_up_run(n).states.last() == run.states[n].phase->SettingUp_0,
{
    lemma_set_up_since(run, n);
    lemma_wf(run, run.set_up_since(n));
    let start = run.set_up_since(n);
    let inner = run.set_up_run(n);
    assert forall|x: int| 0 <= x < inner.events.len() implies inner.states[x].expects(
        #[trigger] inner.events[x],
    ) && inner.states[x].follows(inner.events[x], inner.states[x + 1], inner.actions[x]) by {
        let at = start + x;
        let before = run.states[at];
        let after = run.states[at + 1];
        let event = run.events[at];
        assert(event is Setup && before.phase is SettingUp);
        assert(before.expects(event));
        assert(before.follows(event, after, run.actions[at]));
        if at + 1 < n {
            assert(run.events[at + 1] is Setup);
        }
        assert(after.phase is SettingUp);
        let (next, to_do) = choose|next: SessionSetup, to_do: SetupAction| #[trigger]
            inner.states[x].follows(inner.events[x], next, to_do) && before.set_up(
                next,
                to_do,
                after,
                run.actions[at],
            );
        assert(inner.states[x].follows(inner.events[x], next, to_do));
        assert(inner.states[x + 1] == next && inner.actions[x] == to_do);
    }
}

/// The set-up whose session comes up with event `k`, to its end.
pub(crate) proof fn lemma_whole_set_up(run: TunnelRun, k: int) -> (full: SetupRun)
    requires
        run.valid(),
        0 <= k < run.events.len(),
        run.states[k].phase is SettingUp,
        run.events[k] is Setup,
    ensures
        full.valid(),
        full.events.len() == k - run.set_up_since(k) + 1,
        full.states[0] == run.set_up_run(k).states[0],
        forall|x: int| #![trigger full.events[x]]
            0 <= x < full.events.len() ==> full.states[x]
                == run.states[run.set_up_since(k) + x].phase->SettingUp_0
                && run.events[run.set_up_since(k) + x] == TunnelEvent::Setup(full.events[x]),
        run.states[k].set_up(
            full.states.last(),
            full.actions.last(),
            run.states[k + 1],
            run.actions[k],
        ),
{
    let before = run.states[k];
    let event = run.events[k];
    assert(before.expects(event));
    assert(before.follows(event, run.states[k + 1], run.actions[k]));
    lemma_set_up_since(run, k);
    law_set_up_is_a_run(run, k);
    let start = run.set_up_since(k);
    let partial = run.set_up_run(k);
    let setup = before.phase->SettingUp_0;
    let inner = event->Setup_0;
    let (next, to_do) = choose|next: SessionSetup, to_do: SetupAction| #[trigger]
        setup.follows(inner, next, to_do) && before.set_up(
            next,
            to_do,
            run.states[k + 1],
            run.actions[k],
        );
    assert(setup.follows(inner, next, to_do));
    let full = SetupRun {
        states: partial.states.push(next),
        events: partial.events.push(inner),
        actions: partial.actions.push(to_do),
    };
    assert forall|x: int| 0 <= x < full.events.len() implies full.states[x].expects(
        #[trigger] full.events[x],
    ) && full.states[x].follows(full.events[x], full.states[x + 1], full.actions[x]) by {
        if x < partial.events.len() {
            assert(full.events[x] == partial.events[x]);
        } else {
            assert(full.states[x] == setup);
        }
    }
    assert(full.states[0] == partial.states[0]);
    assert forall|x: int| #![trigger full.events[x]] 0 <= x < full.events.len() implies full.states[x]
        == run.states[start + x].phase->SettingUp_0 && run.events[start + x] == TunnelEvent::Setup(
        full.events[x],
    ) by {
        if x < partial.events.len() {
            assert(run.events[start + x] is Setup);
        }
    }
    full
}

/// No packet without the pinned key and the server's consent: a session comes up, and takes the
/// packets that wait, only after its server showed a certificate of the key in its material and
/// then answered the CONNECT request with a status that begins with a 2.
pub proof fn law_packets_only_to_the_pinned_server(run: TunnelRun, k: int)
    requires
        run.valid(),
        0 <= k < run.events.len(),
        run.actions[k] is Start,
    ensures
        exists|h: int, i: int, j: int| #[trigger] run.sound_start(h, i, j, k),
{
    lemma_wf(run, k);
    assert(run.states[k].expects(run.events[k]));
    lemma_event_keeps(run.states[k], run.events[k], run.states[k + 1], run.actions[k]);
    lemma_set_up_since(run, k);
    law_set_up_is_a_run(run, k);
    let start = run.set_up_since(k);
    let full = lemma_whole_set_up(run, k);
    let last = full.events.len() - 1;
    assert(full.states[last].follows(full.events[last], full.states.last(), full.actions.last()));
    law_ready_means_accepted(full);
    let (a, b) = choose|a: int, b: int|
        a < b && #[trigger] full.admitted_at(a) && #[trigger] full.accepted_at(b);
    assert(full.admitted_at(a) && full.accepted_at(b));
    let i = start + a;
    let j = start + b;
    assert(run.events[i] is Setup && full.events[a] == run.events[i]->Setup_0);
    assert(run.events[j] is Setup && full.events[b] == run.events[j]->Setup_0);
    assert(full.states[b] == run.states[j].phase->SettingUp_0);
    assert forall|x: int| #![trigger run.events[x]] start - 2 < x <= k implies run.events[x]
        is LinkOpened || run.events[x] is Setup by {}
    assert(run.sound_start(start - 2, i, j, k));
}

/// Packets of the device or that waited are sent only by a session that is up: the tunnel says to
/// do something with packets only where one came up before.
pub proof fn law_forwarding_follows_start(run: TunnelRun, n: int)
    requires
        run.valid(),
        0 <= n < run.states.len(),
    ensures
        run.states[n].phase is Up ==> exists|k: int|
            0 <= k < n && (#[trigger] run.actions[k]) is Start && forall|x: int|
                k < x < n ==> (#[trigger] run.actions[x]) is Forward,
    decreases n,
{
    if n > 0 && run.states[n].phase is Up {
        law_forwarding_follows_start(run, n - 1);
        let before = run.states[n - 1];
        let event = run.events[n - 1];
        assert(before.expects(event));
        assert(before.follows(event, run.states[n], run.actions[n - 1]));
        if before.phase is Up {
            let k = choose|k: int|
                0 <= k < n - 1 && (#[trigger] run.actions[k]) is Start && forall|x: int|
                    k < x < n - 1 ==> (#[trigger] run.actions[x]) is Forward;
            assert(run.actions[k] is Start);
            assert(run.actions[n - 1] is Forward);
        } else {
            assert(run.actions[n - 1] is Start);
        }
    }
}

impl TunnelRun {
    /// What the session that came up with event `k` did until state `n`, with the packets that
    /// waited for it.
    pub open spec fn session_run(self, k: int, n: int) -> ForwardRun {
        ForwardRun {
            pending: self.states[k].pending_packets@,
            first: self.actions[k]->first,
            states: Seq::new((n - k) as nat, |x: int| self.states[k + 1 + x].phase->Up_0),
            events: Seq::new((n - k - 1) as nat, |x: int| self.events[k + 1 + x]->Forward_0),
            actions: Seq::new((n - k - 1) as nat, |x: int| self.actions[k + 1 + x]->Forward_0),
        }
    }
}

/// A session that came up with event `k` and is still up in state `n` is a run of forwarding that
/// begins with the packets that waited, on the flow that its set-up found. So what holds of every
/// such run holds of it: that those packets are prepared first and in order, and that the transport
/// is handed the flow's prefix and the packet for each one that can be sent.
pub proof fn law_session_begins_with_what_waited(run: TunnelRun, k: int, n: int)
    requires
        run.valid(),
        0 <= k < n < run.states.len(),
        run.actions[k] is Start,
        forall|x: int| k < x <= n ==> (#[trigger] run.states[x]).phase is Up,
    ensures
        run.session_run(k, n).valid(),
        run.session_run(k, n).pending == run.states[k].pending_packets@,
        run.session_run(k, n).states[0].flow_id == run.actions[k]->flow_id,
        run.session_run(k, n).given(n - k - 1) == run.session_run(k, n).prepared(n - k - 1)
            + run.session_run(k, n).states.last().outgoing@,
{
    let inner = run.session_run(k, n);
    law_session_takes_what_waits(run, k, run.actions[k]->flow_id);
    assert(inner.states[0] == run.states[k + 1].phase->Up_0);
    assert forall|x: int| 0 <= x < inner.events.len() implies inner.states[x].expects(
        #[trigger] inner.events[x],
    ) && inner.states[x].stats.room(inner.states[x].at_stake(inner.events[x]))
        && inner.states[x].follows(inner.events[x], inner.states[x + 1], inner.actions[x]) by {
        let at = k + 1 + x;
        let before = run.states[at];
        let after = run.states[at + 1];
        assert(before.phase is Up && after.phase is Up);
        assert(before.expects(run.events[at]));
        assert(before.follows(run.events[at], after, run.actions[at]));
        let (next, to_do) = choose|next: TunnelSession, to_do: ForwardAction| #[trigger]
            inner.states[x].follows(inner.events[x], next, to_do) && before.forwarded(
                next,
                to_do,
                after,
                run.actions[at],
            );
        assert(inner.states[x].follows(inner.events[x], next, to_do));
        assert(inner.states[x + 1] == next && inner.actions[x] == to_do);
    }
    law_departures_in_order(inner, n - k - 1);
}

/// A server without a certificate of the pinned key gets no packet: the session fails, with the
/// message that says why, and the packets go on waiting.
pub proof fn law_unpinned_server_gets_nothing(
    before: Tunnel,
    setup: SessionSetup,
    certificate: Option<Vec<u8>>,
    after: Tunnel,
    action: TunnelAction,
)
    requires
        before.wf(),
        before.phase == TunnelPhase::SettingUp(setup),
        setup.phase is CheckingPeer,
        !admits(setup.pinned@, certificate),
        before.follows(
            TunnelEvent::Setup(SetupEvent::PeerCertificate(certificate)),
            after,
            action,
        ),
    ensures
        after.pending_packets@ == before.pending_packets@,
        action matches TunnelAction::Rest { failure, .. } && failure.text() == if certificate
            is None {
            "peer did not provide a certificate"@
        } else {
            "peer certificate public key does not match pinned endpoint key"@
        },
{
    reveal_strlit("");
    assert(action matches TunnelAction::Rest { failure, .. } && failure.text() =~= if certificate
        is None {
        "peer did not provide a certificate"@
    } else {
        "peer certificate public key does not match pinned endpoint key"@
    });
}

/// A private key that is not Base64 starts no session: it fails with the message that says so, and
/// the packets go on waiting. The device is not touched.
pub proof fn law_unreadable_key_keeps_packets(
    config: Config,
    now: i64,
    outcome: Result<TlsMaterial, TlsError>,
    before: Tunnel,
    after: Tunnel,
    action: TunnelAction,
)
    requires
        config.stored_private_key() is None,
        prepared_at(config, now, outcome),
        before.wf(),
        before.phase is Preparing,
        before.follows(TunnelEvent::Material(outcome), after, action),
    ensures
        after.pending_packets@ == before.pending_packets@,
        action matches TunnelAction::Rest { failure, .. } && failure.text()
            == "failed to decode private key from base64"@,
{
}

/// Whatever ends a session before it is up, or while it is, the tunnel rests for a second, keeps
/// the packets that wait, and then begins anew if there are any.
pub proof fn law_failure_rests(
    before: Tunnel,
    event: TunnelEvent,
    after: Tunnel,
    action: TunnelAction,
    failure: SessionFailure,
)
    requires
        before.wf(),
        before.expects(event),
        before.follows(event, after, action),
        action matches TunnelAction::Rest { failure: cause, .. } && cause == failure,
    ensures
        after.phase is Resting,
        after.pending_packets@ == before.pending_packets@,
        action->delay@ == 1_000_000_000,
{
}

} // verus!
