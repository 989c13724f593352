use usque::clock::Duration;
use usque::net::SocketAddress;
use usque::packet_session::SessionLoopOutcome;
use usque::register::{
    generate_ec_keypair, Account, AccountData, Addresses, Endpoint, Interface, Peer, WarpConfig,
};
use usque::config::Config;
use usque::setup::{
    connect_request_headers, connect_verdict, random_connection_id, setup_timeout, Dialect, Phase,
    SessionSetup, SetupAction, SetupError, SetupEvent, Stage, Verdict, CONNECTION_ID_LEN,
    RESPONSE_ROUNDS,
};
use usque::tls::prepare_tls_material;

const SERVER: SocketAddress = SocketAddress::V4 { ip: 0xc000_0201, port: 443 };

fn status(value: &[u8]) -> (Vec<u8>, Vec<u8>) {
    (b":status".to_vec(), value.to_vec())
}

fn other() -> (Vec<u8>, Vec<u8>) {
    (b"server".to_vec(), b"500".to_vec())
}

/// A certificate and the key that it certifies.
fn certificate() -> (Vec<u8>, Vec<u8>) {
    let (private, public) = generate_ec_keypair().expect("a key pair");
    let account = AccountData {
        id: String::new(),
        token: String::new(),
        account: Account { id: String::new(), license: None },
        config: WarpConfig {
            peers: vec![Peer {
                public_key: pem::encode(&pem::Pem::new("PUBLIC KEY", public.clone())),
                endpoint: Endpoint { v4: String::new(), v6: String::new() },
            }],
            interface: Interface {
                addresses: Addresses { v4: String::new(), v6: String::new() },
            },
        },
    };
    let config = Config::from_account_data(&account, "", &private).expect("one peer");
    let material = prepare_tls_material(&config).expect("material");
    (pem::parse(&material.cert_pem).expect("PEM").contents().to_vec(), public)
}

fn made() -> SetupEvent {
    SetupEvent::PacketMade { len: 1200, to: SERVER }
}

fn standing(established: bool, closed: bool) -> SetupEvent {
    SetupEvent::Status { established, closed }
}

/// Takes a set-up up to where the server's certificate is asked for.
fn shaken(dialect: Dialect, pinned: Vec<u8>) -> SessionSetup {
    let mut setup = SessionSetup::new(dialect, pinned);
    assert!(matches!(setup.step(made()), SetupAction::SendPacket { len: 1200, to: SERVER }));
    if dialect == Dialect::PacketStream {
        assert!(matches!(setup.step(SetupEvent::PacketSent), SetupAction::MakePacket));
        assert!(matches!(setup.step(SetupEvent::NothingToSend), SetupAction::Wait));
    } else {
        assert!(matches!(setup.step(SetupEvent::PacketSent), SetupAction::Wait));
    }
    assert!(matches!(setup.step(SetupEvent::TimerFired), SetupAction::Expire));
    assert!(matches!(setup.step(SetupEvent::Told), SetupAction::MakePacket));
    assert!(matches!(setup.step(SetupEvent::NothingToSend), SetupAction::ReadStatus));
    assert!(matches!(setup.step(standing(false, false)), SetupAction::Wait));
    assert!(matches!(setup.step(SetupEvent::Datagram(900)), SetupAction::Deliver(900)));
    assert!(matches!(setup.step(SetupEvent::Told), SetupAction::MakePacket));
    assert!(matches!(setup.step(made()), SetupAction::SendPacket { .. }));
    assert!(matches!(setup.step(SetupEvent::PacketSent), SetupAction::MakePacket));
    assert!(matches!(setup.step(SetupEvent::NothingToSend), SetupAction::ReadStatus));
    assert!(matches!(setup.step(standing(true, false)), SetupAction::ReadPeerCertificate));
    setup
}

/// Takes a set-up up to where the answer is waited for.
fn asked(dialect: Dialect) -> SessionSetup {
    let (der, key) = certificate();
    let mut setup = shaken(dialect, key);
    assert!(matches!(
        setup.step(SetupEvent::PeerCertificate(Some(der))),
        SetupAction::SendRequest
    ));
    assert!(matches!(setup.step(SetupEvent::RequestSent(8)), SetupAction::MakePacket));
    assert!(matches!(setup.step(SetupEvent::NothingToSend), SetupAction::Wait));
    setup
}

fn failure(action: SetupAction) -> SetupError {
    match action {
        SetupAction::Fail(error) => error,
        _ => panic!("the set-up goes on"),
    }
}

#[test]
fn session_comes_up() {
    for dialect in [Dialect::PacketStream, Dialect::Tunnel] {
        let mut setup = asked(dialect);
        assert!(matches!(setup.step(SetupEvent::Datagram(50)), SetupAction::Deliver(50)));
        assert!(matches!(setup.step(SetupEvent::Told), SetupAction::PollH3));
        assert!(matches!(setup.step(SetupEvent::OtherH3Event), SetupAction::PollH3));
        let refused = SetupEvent::Headers { stream_id: 4, list: vec![status(b"403")] };
        assert!(matches!(setup.step(refused), SetupAction::PollH3));
        let accepted = SetupEvent::Headers { stream_id: 8, list: vec![other(), status(b"200")] };
        assert!(matches!(setup.step(accepted), SetupAction::PollH3));
        assert!(matches!(setup.step(SetupEvent::H3Done), SetupAction::MakePacket));
        assert!(matches!(setup.step(SetupEvent::NothingToSend), SetupAction::ReadStatus));
        // Accepted counts, though the connection is closed meanwhile.
        assert!(matches!(
            setup.step(standing(true, true)),
            SetupAction::Finish { flow_id: 2 }
        ));
        assert_eq!(setup.phase, Phase::Ready);
        assert_eq!(setup.flow_id(), 2);
    }
}

#[test]
fn wrong_key_is_turned_away() {
    let (der, _) = certificate();
    let (_, other_key) = certificate();
    for dialect in [Dialect::PacketStream, Dialect::Tunnel] {
        let mut setup = shaken(dialect, other_key.clone());
        let error = failure(setup.step(SetupEvent::PeerCertificate(Some(der.clone()))));
        assert!(matches!(error, SetupError::KeyMismatch));
        assert_eq!(
            error.message(dialect),
            "peer certificate public key does not match pinned endpoint key"
        );
        assert_eq!(setup.phase, Phase::Failed);
    }
}

#[test]
fn a_certificate_must_be_shown() {
    for dialect in [Dialect::PacketStream, Dialect::Tunnel] {
        let mut setup = shaken(dialect, vec![1]);
        let error = failure(setup.step(SetupEvent::PeerCertificate(None)));
        assert!(matches!(error, SetupError::NoCertificate));
        assert_eq!(error.message(dialect), "peer did not provide a certificate");
        assert_eq!(setup.phase, Phase::Failed);
    }
}

#[test]
fn refusal_is_quoted() {
    let mut setup = asked(Dialect::Tunnel);
    setup.step(SetupEvent::TimerFired);
    setup.step(SetupEvent::Told);
    let refused = SetupEvent::Headers { stream_id: 8, list: vec![status(b"401")] };
    let error = failure(setup.step(refused));
    assert_eq!(error.message(Dialect::Tunnel), "CONNECT rejected with status 401");
}

#[test]
fn patience_ends_after_a_hundred_rounds() {
    let mut setup = asked(Dialect::PacketStream);
    for round in 0..RESPONSE_ROUNDS {
        assert_eq!(setup.round, round);
        assert!(matches!(setup.step(SetupEvent::TimerFired), SetupAction::Expire));
        assert!(matches!(setup.step(SetupEvent::Told), SetupAction::PollH3));
        assert!(matches!(setup.step(SetupEvent::H3Done), SetupAction::MakePacket));
        assert!(matches!(setup.step(SetupEvent::NothingToSend), SetupAction::ReadStatus));
        let action = setup.step(standing(true, false));
        if round + 1 < 100 {
            assert!(matches!(action, SetupAction::Wait));
        } else {
            let error = failure(action);
            assert_eq!(
                error.message(Dialect::PacketStream),
                "timed out waiting for CONNECT response"
            );
        }
    }
    assert_eq!(setup.phase, Phase::Failed);
}

#[test]
fn closed_connections_end_the_set_up() {
    let mut setup = SessionSetup::new(Dialect::Tunnel, Vec::new());
    setup.step(made());
    setup.step(SetupEvent::PacketSent);
    setup.step(SetupEvent::TimerFired);
    setup.step(SetupEvent::Told);
    setup.step(SetupEvent::NothingToSend);
    let error = failure(setup.step(standing(false, true)));
    assert_eq!(error.message(Dialect::Tunnel), "connection closed during handshake");
    let mut setup = asked(Dialect::Tunnel);
    setup.step(SetupEvent::TimerFired);
    setup.step(SetupEvent::Told);
    setup.step(SetupEvent::H3Done);
    setup.step(SetupEvent::NothingToSend);
    let error = failure(setup.step(standing(true, true)));
    assert_eq!(error.message(Dialect::Tunnel), "connection closed before CONNECT response");
}

#[test]
fn a_tunnel_opens_with_one_packet() {
    let mut setup = SessionSetup::new(Dialect::Tunnel, Vec::new());
    let error = failure(setup.step(SetupEvent::NothingToSend));
    assert_eq!(error.message(Dialect::Tunnel), "initial send: Done");
    let mut setup = SessionSetup::new(Dialect::PacketStream, Vec::new());
    assert!(matches!(setup.step(SetupEvent::NothingToSend), SetupAction::Wait));
}

#[test]
fn causes_are_worded_for_each_kind_of_session() {
    let text = || "why".to_string();
    let cases = [
        (SetupError::Rng, "RNG failure", "RNG failure"),
        (SetupError::Quic(Stage::Opening, text()), "why", "initial send: why"),
        (
            SetupError::Quic(Stage::Handshake, text()),
            "send during handshake failed: why",
            "send during handshake: why",
        ),
        (SetupError::Quic(Stage::Request, text()), "why", "send after CONNECT: why"),
        (
            SetupError::Quic(Stage::Response, text()),
            "send during CONNECT wait failed: why",
            "send during CONNECT wait: why",
        ),
        (SetupError::Socket(Stage::Opening, text()), "why", "why"),
        (
            SetupError::Socket(Stage::Handshake, text()),
            "send during handshake failed: why",
            "why",
        ),
        (SetupError::Socket(Stage::Request, text()), "why", "why"),
        (
            SetupError::Socket(Stage::Response, text()),
            "send during CONNECT wait failed: why",
            "why",
        ),
        (
            SetupError::Receive(Stage::Handshake, text()),
            "UDP recv during handshake failed: why",
            "why",
        ),
        (
            SetupError::Receive(Stage::Response, text()),
            "UDP recv before CONNECT response failed: why",
            "why",
        ),
        (SetupError::H3Config(text()), "why", "h3 config: why"),
        (SetupError::H3Connection(text()), "why", "h3 connection: why"),
        (SetupError::Request(text()), "why", "send CONNECT request: why"),
        (SetupError::H3Poll(text()), "h3 poll error: why", "h3 poll error: why"),
    ];
    for (error, stream, tunnel) in cases {
        assert_eq!(error.message(Dialect::PacketStream), stream);
        assert_eq!(error.message(Dialect::Tunnel), tunnel);
        assert_eq!(SessionLoopOutcome::from_setup(&error).into_message(), stream);
    }
}

#[test]
fn failures_keep_their_stage() {
    let text = || "why".to_string();
    let mut setup = SessionSetup::new(Dialect::PacketStream, Vec::new());
    let error = failure(setup.step(SetupEvent::QuicSendFailed(text())));
    assert!(matches!(error, SetupError::Quic(Stage::Opening, _)));
    let mut setup = SessionSetup::new(Dialect::PacketStream, Vec::new());
    setup.step(made());
    let error = failure(setup.step(SetupEvent::SocketSendFailed(text())));
    assert!(matches!(error, SetupError::Socket(Stage::Opening, _)));
    let mut setup = SessionSetup::new(Dialect::PacketStream, Vec::new());
    setup.step(SetupEvent::NothingToSend);
    let error = failure(setup.step(SetupEvent::ReceiveFailed(text())));
    assert!(matches!(error, SetupError::Receive(Stage::Handshake, _)));
    let mut setup = asked(Dialect::PacketStream);
    let error = failure(setup.step(SetupEvent::ReceiveFailed(text())));
    assert!(matches!(error, SetupError::Receive(Stage::Response, _)));
    let mut setup = asked(Dialect::PacketStream);
    setup.step(SetupEvent::TimerFired);
    setup.step(SetupEvent::Told);
    let error = failure(setup.step(SetupEvent::H3Failed(text())));
    assert!(matches!(error, SetupError::H3Poll(_)));
}

#[test]
fn request_failures_are_told_apart() {
    let text = || "why".to_string();
    for number in 0..3 {
        let (der, key) = certificate();
        let mut setup = shaken(Dialect::PacketStream, key);
        setup.step(SetupEvent::PeerCertificate(Some(der)));
        let error = match number {
            0 => failure(setup.step(SetupEvent::H3ConfigFailed(text()))),
            1 => failure(setup.step(SetupEvent::H3ConnectionFailed(text()))),
            _ => failure(setup.step(SetupEvent::RequestFailed(text()))),
        };
        assert!(match number {
            0 => matches!(error, SetupError::H3Config(_)),
            1 => matches!(error, SetupError::H3Connection(_)),
            _ => matches!(error, SetupError::Request(_)),
        });
    }
}

#[test]
fn verdicts_follow_the_statuses() {
    assert!(matches!(connect_verdict(&vec![]), Verdict::Silent));
    assert!(matches!(connect_verdict(&vec![other()]), Verdict::Silent));
    assert!(matches!(connect_verdict(&vec![status(b"2")]), Verdict::Accepted));
    assert!(matches!(connect_verdict(&vec![status(b"204"), other()]), Verdict::Accepted));
    let refused = |list: Vec<(Vec<u8>, Vec<u8>)>| match connect_verdict(&list) {
        Verdict::Rejected(text) => text,
        _ => panic!("not refused"),
    };
    assert_eq!(refused(vec![status(b"404")]), "404");
    assert_eq!(refused(vec![status(b"")]), "");
    assert_eq!(refused(vec![status(b"200"), status(b"503"), status(b"500")]), "503");
    assert_eq!(refused(vec![status(&[0xff, 0xfe])]), "?");
    assert_eq!(refused(vec![status("\u{b2}00".as_bytes())]), "\u{b2}00");
}

#[test]
fn connect_request_is_extended_connect() {
    let headers = connect_request_headers();
    let expected = [
        (":method", "CONNECT"),
        (":protocol", "cf-connect-ip"),
        (":scheme", "https"),
        (":authority", "cloudflareaccess.com"),
        (":path", "/"),
        ("capsule-protocol", "?1"),
        ("user-agent", ""),
    ];
    assert_eq!(headers.len(), expected.len());
    for (header, (name, value)) in headers.iter().zip(expected) {
        assert_eq!((header.0.as_str(), header.1.as_str()), (name, value));
    }
}

#[test]
fn connection_identifiers_are_random() {
    let first = random_connection_id().expect("random bytes");
    let second = random_connection_id().expect("random bytes");
    assert_eq!(first.len(), CONNECTION_ID_LEN);
    assert_eq!(first.len(), 20);
    assert_ne!(first, second);
}

#[test]
fn waiting_is_bounded_by_the_transport() {
    assert_eq!(setup_timeout(None).as_secs(), 0);
    assert_eq!(setup_timeout(None).subsec_nanos(), 100_000_000);
    assert_eq!(setup_timeout(Some(Duration::from_secs(7))).as_secs(), 7);
}
