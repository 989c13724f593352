use base64::Engine;
use std::collections::VecDeque;
use usque::burst::{Burst, BurstAction, BurstError, BurstEvent, MAX_UDP_BATCH_BYTES};
use usque::clock::Duration;
use usque::config::Config;
use usque::drive::{DatagramOutcome, H3Report};
use usque::forward::{
    wakeup, ForwardAction, ForwardEvent, TunnelSession, TunnelStats, Wakeup, REPLY_MTU,
};
use usque::net::SocketAddress;
use usque::register::generate_ec_keypair;
use usque::setup::{Dialect, Phase, SessionSetup, SetupAction, SetupEvent};
use usque::tls::prepare_tls_material;
use usque::tunnel::{
    packet_capacity, Notice, SessionFailure, Tunnel, TunnelAction, TunnelConfig, TunnelError,
    TunnelEvent, TunnelPhase,
};

const SERVER: SocketAddress = SocketAddress::V4 { ip: 0xc000_0201, port: 443 };
const ELSEWHERE: SocketAddress = SocketAddress::V4 { ip: 0xc000_0202, port: 443 };

fn config(keepalive_period: Duration) -> TunnelConfig {
    TunnelConfig { endpoint: SERVER, sni: String::new(), keepalive_period, mtu: 1280 }
}

fn queue(packets: &[&[u8]]) -> VecDeque<Vec<u8>> {
    packets.iter().map(|packet| packet.to_vec()).collect()
}

/// A set-up that has brought a session up on this flow.
fn ready(flow_id: u64) -> SessionSetup {
    SessionSetup {
        dialect: Dialect::Tunnel,
        pinned: Vec::new(),
        phase: Phase::Ready,
        round: 0,
        stream_id: 4 * flow_id,
        accepted: true,
    }
}

fn packet(len: usize, quantum: usize) -> BurstEvent {
    BurstEvent::Packet { len, to: SERVER, quantum }
}

#[test]
fn keepalive_must_not_be_zero() {
    let Err(error) = Tunnel::new(&config(Duration::from_secs(0))) else {
        panic!("a keepalive of zero");
    };
    assert_eq!(error.message(), "keepalive period must be greater than zero");
    assert!(Tunnel::new(&config(Duration::from_millis(1))).is_ok());
    assert_eq!(packet_capacity(1280), 1408);
}

/// A tunnel that waits for its first packets.
fn tunnel() -> Tunnel {
    match Tunnel::new(&config(Duration::from_secs(30))) {
        Ok(tunnel) => tunnel,
        Err(_) => panic!("a usable configuration"),
    }
}

/// A configuration with this private key and a server with this key.
fn account(private_key: &str, endpoint_pub_key: &str) -> Config {
    Config {
        private_key: private_key.to_string(),
        endpoint_v4: String::new(),
        endpoint_v6: String::new(),
        endpoint_pub_key: endpoint_pub_key.to_string(),
        license: String::new(),
        id: String::new(),
        access_token: String::new(),
        ipv4: String::new(),
        ipv6: String::new(),
    }
}

/// A certificate, and the configuration of a client of the server that has it.
fn server() -> (Vec<u8>, Config) {
    let (private, public) = generate_ec_keypair().expect("a key pair");
    let public = pem::encode(&pem::Pem::new("PUBLIC KEY", public));
    let config = account(&base64::engine::general_purpose::STANDARD.encode(private), &public);
    let material = prepare_tls_material(&config).expect("material");
    (pem::parse(&material.cert_pem).expect("PEM").contents().to_vec(), config)
}

/// Takes a tunnel with packets up to where the server's certificate is asked for.
fn shaken(tunnel: &mut Tunnel, config: &Config) {
    assert!(matches!(tunnel.run_tunnel_session(config), TunnelAction::OpenLink(_)));
    assert!(matches!(
        tunnel.maintain_tunnel(TunnelEvent::LinkOpened),
        TunnelAction::Setup(SetupAction::MakePacket)
    ));
    let events = [
        SetupEvent::PacketMade { len: 1200, to: SERVER },
        SetupEvent::PacketSent,
        SetupEvent::Datagram(1200),
        SetupEvent::Told,
        SetupEvent::NothingToSend,
    ];
    for event in events {
        assert!(matches!(
            tunnel.maintain_tunnel(TunnelEvent::Setup(event)),
            TunnelAction::Setup(_)
        ));
    }
    let established = SetupEvent::Status { established: true, closed: false };
    assert!(matches!(
        tunnel.maintain_tunnel(TunnelEvent::Setup(established)),
        TunnelAction::Setup(SetupAction::ReadPeerCertificate)
    ));
}

fn rest(action: TunnelAction) -> SessionFailure {
    match action {
        TunnelAction::Rest { delay, failure } => {
            assert_eq!((delay.as_secs(), delay.subsec_nanos()), (1, 0));
            failure
        }
        _ => panic!("no rest"),
    }
}

#[test]
fn packets_wait_until_a_session_is_up() {
    let (der, config) = server();
    let (_, stranger) = server();
    let mut tunnel = tunnel();
    let read = TunnelEvent::Read(queue(&[b"a", b"b"]));
    assert!(matches!(tunnel.maintain_tunnel(read), TunnelAction::Prepare));
    let waiting = queue(&[b"a", b"b"]);

    // The key cannot be read.
    let failure = rest(tunnel.run_tunnel_session(&account("!", "")));
    assert_eq!(failure.message(), "failed to decode private key from base64");
    assert!(failure.full_message().starts_with("failed to decode private key from base64: "));
    assert_eq!(tunnel.pending_packets, waiting);
    assert!(matches!(tunnel.maintain_tunnel(TunnelEvent::Rested), TunnelAction::Prepare));

    // The socket cannot be opened.
    tunnel.run_tunnel_session(&config);
    let failed = TunnelEvent::LinkFailed {
        message: "outer".to_string(),
        full_message: "outer: inner".to_string(),
    };
    let failure = rest(tunnel.maintain_tunnel(failed));
    assert_eq!((failure.message(), failure.full_message()), ("outer".into(), "outer: inner".into()));
    assert_eq!(tunnel.pending_packets, waiting);
    tunnel.maintain_tunnel(TunnelEvent::Rested);

    // The server has another key, or shows none.
    for (certificate, text) in [
        (Some(der.clone()), "peer certificate public key does not match pinned endpoint key"),
        (None, "peer did not provide a certificate"),
    ] {
        shaken(&mut tunnel, &stranger);
        let shown = TunnelEvent::Setup(SetupEvent::PeerCertificate(certificate));
        assert_eq!(rest(tunnel.maintain_tunnel(shown)).message(), text);
        assert_eq!(tunnel.pending_packets, waiting);
        assert!(matches!(tunnel.maintain_tunnel(TunnelEvent::Rested), TunnelAction::Prepare));
    }

    // The server has the key and accepts.
    shaken(&mut tunnel, &config);
    let list = vec![(b":status".to_vec(), b"200".to_vec())];
    let events = [
        SetupEvent::PeerCertificate(Some(der)),
        SetupEvent::RequestSent(12),
        SetupEvent::NothingToSend,
        SetupEvent::Datagram(100),
        SetupEvent::Told,
        SetupEvent::Headers { stream_id: 12, list },
        SetupEvent::H3Done,
        SetupEvent::NothingToSend,
    ];
    for event in events {
        assert_eq!(tunnel.pending_packets, waiting);
        assert!(matches!(
            tunnel.maintain_tunnel(TunnelEvent::Setup(event)),
            TunnelAction::Setup(_)
        ));
    }
    let standing = SetupEvent::Status { established: true, closed: false };
    match tunnel.maintain_tunnel(TunnelEvent::Setup(standing)) {
        TunnelAction::Start { flow_id, first: ForwardAction::Prepare(packet) } => {
            assert_eq!((flow_id, packet.as_slice()), (3, b"a".as_ref()));
        }
        _ => panic!("not up"),
    }
    assert!(tunnel.pending_packets.is_empty());
    let ready = TunnelEvent::Forward(ForwardEvent::Prepared(Some(b"a".to_vec())));
    assert!(matches!(
        tunnel.maintain_tunnel(ready),
        TunnelAction::Forward(ForwardAction::Hand(dgram)) if dgram == [3, 0, b'a']
    ));
    let handed = ForwardEvent::Handed(DatagramOutcome::Sent);
    assert!(tunnel.has_room_for(&handed));
    assert!(matches!(
        tunnel.maintain_tunnel(TunnelEvent::Forward(handed)),
        TunnelAction::Forward(ForwardAction::Prepare(packet)) if packet == b"b"
    ));
}

/// A tunnel whose session is up and has sent its only packet.
fn up() -> Tunnel {
    let mut tunnel = tunnel();
    let (session, _) = TunnelSession::new(&ready(3), Duration::from_secs(30), VecDeque::new());
    tunnel.phase = TunnelPhase::Up(session);
    tunnel
}

#[test]
fn sessions_end_or_fail() {
    let mut ended = up();
    for event in [
        ForwardEvent::UdpBatch(0),
        ForwardEvent::Delivered,
        ForwardEvent::H3(H3Report::Done),
        ForwardEvent::NoDatagram,
        ForwardEvent::Flushed,
    ] {
        assert!(matches!(
            ended.maintain_tunnel(TunnelEvent::Forward(event)),
            TunnelAction::Forward(_)
        ));
    }
    assert!(matches!(
        ended.maintain_tunnel(TunnelEvent::Forward(ForwardEvent::Closed(true))),
        TunnelAction::Part
    ));
    assert!(matches!(ended.maintain_tunnel(TunnelEvent::Told), TunnelAction::Read));
    let mut failed = up();
    let broken = TunnelEvent::Forward(ForwardEvent::UdpFailed("why".to_string()));
    assert_eq!(rest(failed.maintain_tunnel(broken)).message(), "why");
    assert!(matches!(failed.maintain_tunnel(TunnelEvent::Rested), TunnelAction::Read));
}

#[test]
fn a_lost_device_ends_the_tunnel() {
    match tunnel().maintain_tunnel(TunnelEvent::Read(VecDeque::new())) {
        TunnelAction::Fail(error) => assert_eq!(error.message(), "TUN device closed"),
        _ => panic!("the device is closed"),
    }
    match tunnel().maintain_tunnel(TunnelEvent::ReadFailed("why".to_string())) {
        TunnelAction::Fail(error) => {
            assert_eq!(error.message(), "failed to read TUN device while idle: why")
        }
        _ => panic!("the device failed"),
    }
}

#[test]
fn users_are_told() {
    assert_eq!(Notice::Idle.text(), "\r\x1b[2K[idle] Waiting for traffic...");
    assert_eq!(
        Notice::Connecting("192.0.2.1:443".to_string()).text(),
        "\r\x1b[2K[connecting] 192.0.2.1:443 ..."
    );
    assert_eq!(Notice::Connected.text(), "\r\x1b[2K[connected] MASQUE tunnel established");
    assert_eq!(Notice::Disconnected.text(), "\r\x1b[2K[disconnected] Session ended");
    assert_eq!(Notice::Failed("why".to_string()).text(), "\r\x1b[2K[error] why");
}

#[test]
fn tunnel_errors_have_their_texts() {
    let text = || "why".to_string();
    let cases = [
        (TunnelError::Read(text()), "failed to read packet batch from TUN: why"),
        (TunnelError::Write(text()), "failed to write packet batch to TUN: why"),
        (TunnelError::Udp(text()), "why"),
        (TunnelError::Keepalive(text()), "failed to schedule QUIC keepalive: why"),
        (TunnelError::Burst(BurstError::Quic(text())), "quic send error: why"),
        (
            TunnelError::Burst(BurstError::DestinationChanged),
            "QUIC destination changed inside a GSO burst",
        ),
        (TunnelError::Burst(BurstError::Segmented(text())), "UDP GSO send failed: why"),
        (TunnelError::Burst(BurstError::Plain(text())), "UDP send failed: why"),
    ];
    for (error, text) in cases {
        assert_eq!(error.message(), text);
    }
}

#[test]
fn without_segmentation_packets_go_one_by_one() {
    let mut burst = Burst::new(false, MAX_UDP_BATCH_BYTES);
    assert!(matches!(burst.begin(), BurstAction::MakePacket { start: 0, end: 1350 }));
    assert!(matches!(
        burst.flush_quic_packets(packet(1200, 60_000)),
        BurstAction::SendPlain { len: 1200, to: SERVER }
    ));
    assert!(matches!(
        burst.flush_quic_packets(BurstEvent::Sent),
        BurstAction::MakePacket { start: 0, end: 1350 }
    ));
    assert!(matches!(
        burst.flush_quic_packets(BurstEvent::NothingToSend),
        BurstAction::Finish
    ));
}

#[test]
fn bursts_grow_to_the_quantum() {
    let mut burst = Burst::new(true, MAX_UDP_BATCH_BYTES);
    assert!(matches!(
        burst.flush_quic_packets(packet(1000, 3500)),
        BurstAction::MakePacket { start: 1000, end: 2000 }
    ));
    assert!(matches!(
        burst.flush_quic_packets(packet(1000, 0)),
        BurstAction::MakePacket { start: 2000, end: 3000 }
    ));
    // A fourth segment would pass the quantum.
    assert!(matches!(
        burst.flush_quic_packets(packet(1000, 0)),
        BurstAction::SendSegmented { total: 3000, segment: 1000, to: SERVER }
    ));
    assert!(matches!(
        burst.flush_quic_packets(BurstEvent::Sent),
        BurstAction::MakePacket { start: 0, end: 1350 }
    ));
}

#[test]
fn the_last_segment_may_be_shorter() {
    let mut burst = Burst::new(true, MAX_UDP_BATCH_BYTES);
    burst.flush_quic_packets(packet(1000, 9000));
    assert!(matches!(
        burst.flush_quic_packets(packet(40, 9000)),
        BurstAction::SendSegmented { total: 1040, segment: 1000, .. }
    ));
    burst.flush_quic_packets(BurstEvent::Sent);
    burst.flush_quic_packets(packet(1000, 9000));
    assert!(matches!(
        burst.flush_quic_packets(BurstEvent::NothingToSend),
        BurstAction::SendPlain { len: 1000, .. }
    ));
    assert!(matches!(burst.flush_quic_packets(BurstEvent::Sent), BurstAction::Finish));
}

#[test]
fn larger_packets_begin_a_new_burst() {
    let mut burst = Burst::new(true, MAX_UDP_BATCH_BYTES);
    burst.flush_quic_packets(packet(100, 9000));
    burst.flush_quic_packets(packet(100, 9000));
    assert!(matches!(
        burst.flush_quic_packets(BurstEvent::BufferTooShort),
        BurstAction::SendSegmented { total: 200, segment: 100, .. }
    ));
    assert!(matches!(
        burst.flush_quic_packets(BurstEvent::Sent),
        BurstAction::MakePacket { start: 0, end: 1350 }
    ));
    match burst.flush_quic_packets(BurstEvent::BufferTooShort) {
        BurstAction::Fail(error) => assert_eq!(error.message(), "quic send error: BufferTooShort"),
        _ => panic!("no room at all"),
    }
}

#[test]
fn bursts_stay_inside_the_buffer() {
    let mut burst = Burst::new(true, 2500);
    assert!(matches!(
        burst.flush_quic_packets(packet(1000, usize::MAX)),
        BurstAction::MakePacket { start: 1000, end: 2000 }
    ));
    assert!(matches!(
        burst.flush_quic_packets(packet(1000, 0)),
        BurstAction::SendSegmented { total: 2000, .. }
    ));
    let mut small = Burst::new(true, 700);
    assert!(matches!(small.begin(), BurstAction::MakePacket { start: 0, end: 700 }));
}

#[test]
fn bursts_fail_for_their_reasons() {
    let mut burst = Burst::new(true, MAX_UDP_BATCH_BYTES);
    burst.flush_quic_packets(packet(100, 9000));
    let astray = BurstEvent::Packet { len: 100, to: ELSEWHERE, quantum: 9000 };
    assert!(matches!(
        burst.flush_quic_packets(astray),
        BurstAction::Fail(BurstError::DestinationChanged)
    ));
    let text = || "why".to_string();
    let mut burst = Burst::new(true, MAX_UDP_BATCH_BYTES);
    burst.flush_quic_packets(packet(100, 9000));
    burst.flush_quic_packets(packet(50, 9000));
    assert!(matches!(
        burst.flush_quic_packets(BurstEvent::SendFailed(text())),
        BurstAction::Fail(BurstError::Segmented(_))
    ));
    let mut burst = Burst::new(false, MAX_UDP_BATCH_BYTES);
    burst.flush_quic_packets(packet(100, 9000));
    assert!(matches!(
        burst.flush_quic_packets(BurstEvent::SendFailed(text())),
        BurstAction::Fail(BurstError::Plain(_))
    ));
    let mut burst = Burst::new(true, MAX_UDP_BATCH_BYTES);
    burst.flush_quic_packets(packet(100, 9000));
    assert!(matches!(
        burst.flush_quic_packets(BurstEvent::QuicFailed(text())),
        BurstAction::Fail(BurstError::Quic(_))
    ));
}

#[test]
fn wakeups_have_a_reason() {
    let keepalive = Duration::from_secs(30);
    assert_eq!(wakeup(None, keepalive), Wakeup { expire: false, keepalive: true });
    assert_eq!(
        wakeup(Some(Duration::from_secs(5)), keepalive),
        Wakeup { expire: true, keepalive: false }
    );
    assert_eq!(
        wakeup(Some(Duration::from_secs(50)), keepalive),
        Wakeup { expire: false, keepalive: true }
    );
    assert_eq!(wakeup(Some(keepalive), keepalive), Wakeup { expire: true, keepalive: true });
}

#[test]
fn status_line_shows_everything() {
    let stats = TunnelStats {
        tx_packets: 12,
        rx_packets: 345,
        tx_bytes: 1536,
        rx_bytes: 1_048_576,
        dropped: 7,
    };
    assert_eq!(
        stats.status_line(Duration::from_secs(3661), 8, 9),
        "\r\x1b[2K[connected 1h 01m 01s] tx: 12 (1.5 KiB)  rx: 345 (1.0 MiB)  drop: 7  lost: 8  \
         retrans: 9"
    );
    assert!(stats.has_room(usize::MAX / 2));
    assert!(!TunnelStats { dropped: u64::MAX, ..stats }.has_room(0));
    assert!(!TunnelStats { rx_bytes: u64::MAX - 1, ..stats }.has_room(2));
}

/// A session without packets that waited for it.
fn session() -> TunnelSession {
    let (session, action) = TunnelSession::new(&ready(1), Duration::from_secs(30), VecDeque::new());
    assert!(matches!(action, ForwardAction::Wait));
    session
}

#[test]
fn pending_packets_go_first() {
    let (mut session, action) =
        TunnelSession::new(&ready(1), Duration::from_secs(30), queue(&[b"a", b"b", b"c"]));
    assert!(matches!(action, ForwardAction::Prepare(p) if p == b"a"));
    let action = session.step(ForwardEvent::Prepared(Some(b"AA".to_vec())));
    assert!(matches!(action, ForwardAction::Hand(d) if d == [1, 0, b'A', b'A']));
    let action = session.step(ForwardEvent::Handed(DatagramOutcome::Sent));
    assert!(matches!(action, ForwardAction::Prepare(p) if p == b"b"));
    // Those that cannot be sent are not counted as dropped.
    let action = session.step(ForwardEvent::Prepared(None));
    assert!(matches!(action, ForwardAction::Prepare(p) if p == b"c"));
    session.step(ForwardEvent::Prepared(Some(b"C".to_vec())));
    let failed = ForwardEvent::Handed(DatagramOutcome::Failed("why".to_string()));
    assert!(matches!(session.step(failed), ForwardAction::Wait));
    assert_eq!(
        session.stats,
        TunnelStats { tx_packets: 1, rx_packets: 0, tx_bytes: 2, rx_bytes: 0, dropped: 0 }
    );
}

#[test]
fn device_packets_are_accounted_for() {
    let mut session = session();
    let batch = ForwardEvent::Batch(queue(&[b"a", b"b", b"c", b"d", b"e"]));
    let action = session.step(batch);
    assert!(matches!(action, ForwardAction::Prepare(p) if p == b"a"));
    session.step(ForwardEvent::Prepared(Some(b"aaa".to_vec())));
    session.step(ForwardEvent::Handed(DatagramOutcome::Sent));
    session.step(ForwardEvent::Prepared(Some(b"b".to_vec())));
    session.step(ForwardEvent::Handed(DatagramOutcome::InvalidState));
    session.step(ForwardEvent::Prepared(Some(b"c".to_vec())));
    session.step(ForwardEvent::Handed(DatagramOutcome::Done));
    session.step(ForwardEvent::Prepared(None));
    session.step(ForwardEvent::Prepared(Some(b"EE".to_vec())));
    let failed = ForwardEvent::Handed(DatagramOutcome::Failed("why".to_string()));
    match session.step(failed) {
        ForwardAction::ComposeTooLarge { packet, mtu } => {
            assert_eq!((packet.as_slice(), mtu), (b"EE".as_ref(), 1280));
            assert_eq!(mtu, REPLY_MTU);
        }
        _ => panic!("no reply"),
    }
    match session.step(ForwardEvent::Composed(Some(b"reply".to_vec()))) {
        ForwardAction::Write(batch) => {
            assert_eq!(batch.len(), 1);
            assert_eq!(batch[0], b"\0\0\0\0\0\0\0\0\0\0reply");
        }
        _ => panic!("no reply"),
    }
    assert!(matches!(
        session.step(ForwardEvent::Written),
        ForwardAction::PollH3
    ));
    assert_eq!(
        session.stats,
        TunnelStats { tx_packets: 1, rx_packets: 0, tx_bytes: 3, rx_bytes: 0, dropped: 3 }
    );
}

#[test]
fn replies_may_be_impossible() {
    let mut session = session();
    session.step(ForwardEvent::Batch(queue(&[b"a"])));
    session.step(ForwardEvent::Prepared(Some(b"a".to_vec())));
    session.step(ForwardEvent::Handed(DatagramOutcome::Failed(String::new())));
    assert!(matches!(
        session.step(ForwardEvent::Composed(None)),
        ForwardAction::PollH3
    ));
}

#[test]
fn arrivals_are_written_in_batches() {
    let mut session = session();
    assert!(matches!(
        session.step(ForwardEvent::UdpBatch(3)),
        ForwardAction::DeliverBatch(3)
    ));
    assert!(matches!(
        session.step(ForwardEvent::Delivered),
        ForwardAction::PollH3
    ));
    assert!(matches!(
        session.step(ForwardEvent::H3(H3Report::Event)),
        ForwardAction::PollH3
    ));
    assert!(matches!(
        session.step(ForwardEvent::H3(H3Report::Failed("why".to_string()))),
        ForwardAction::Receive
    ));
    // Of another flow, and not to be let in.
    assert!(matches!(
        session.step(ForwardEvent::Datagram(vec![0, 0, 1])),
        ForwardAction::Receive
    ));
    session.step(ForwardEvent::Datagram(vec![1, 0, 1]));
    let barred = ForwardEvent::Examined(false);
    assert!(matches!(session.step(barred), ForwardAction::Receive));
    for number in 0..130u8 {
        match session.step(ForwardEvent::Datagram(vec![1, 0, number])) {
            ForwardAction::Examine(packet) => assert_eq!(packet, [number]),
            _ => panic!("no packet"),
        }
        match session.step(ForwardEvent::Examined(true)) {
            ForwardAction::Write(batch) => {
                assert_eq!(number, 127);
                assert_eq!(batch.len(), tun_rs::IDEAL_BATCH_SIZE);
                assert!(batch.iter().enumerate().all(|(i, p)| p.len() == 11 && p[10] == i as u8));
                assert!(matches!(
                    session.step(ForwardEvent::Written),
                    ForwardAction::Receive
                ));
            }
            ForwardAction::Receive => assert_ne!(number, 127),
            _ => panic!("neither written nor kept"),
        }
    }
    match session.step(ForwardEvent::NoDatagram) {
        ForwardAction::Write(batch) => {
            assert_eq!(batch.len(), 2);
            assert_eq!((batch[0][10], batch[1][10]), (128, 129));
        }
        _ => panic!("packets left behind"),
    }
    assert!(matches!(
        session.step(ForwardEvent::Written),
        ForwardAction::Flush
    ));
    assert_eq!((session.stats.rx_packets, session.stats.rx_bytes), (130, 130));
    assert!(matches!(
        session.step(ForwardEvent::Flushed),
        ForwardAction::CheckClosed
    ));
    assert!(matches!(
        session.step(ForwardEvent::Closed(false)),
        ForwardAction::Wait
    ));
}

#[test]
fn sessions_end_with_the_connection() {
    let mut session = session();
    let fired = ForwardEvent::TimerFired { quic: Some(Duration::from_secs(1)) };
    assert!(matches!(
        session.step(fired),
        ForwardAction::Wake(Wakeup { expire: true, keepalive: false })
    ));
    session.step(ForwardEvent::Woken);
    session.step(ForwardEvent::H3(H3Report::Done));
    assert!(matches!(
        session.step(ForwardEvent::DatagramFailed),
        ForwardAction::Flush
    ));
    session.step(ForwardEvent::Flushed);
    assert!(matches!(
        session.step(ForwardEvent::Closed(true)),
        ForwardAction::Finish
    ));
}

#[test]
fn ticks_report_and_go_on() {
    let mut session = session();
    let tick = ForwardEvent::StatsTick { elapsed: Duration::from_secs(5), lost: 0, retrans: 0 };
    match session.step(tick) {
        ForwardAction::Report(line) => assert_eq!(
            line,
            "\r\x1b[2K[connected 5s] tx: 0 (0 B)  rx: 0 (0 B)  drop: 0  lost: 0  retrans: 0"
        ),
        _ => panic!("no report"),
    }
    assert!(matches!(
        session.step(ForwardEvent::Reported),
        ForwardAction::PollH3
    ));
    assert_eq!(session.sleep(None).as_secs(), 30);
}

fn failure(action: ForwardAction) -> String {
    match action {
        ForwardAction::Fail(error) => error.message(),
        _ => panic!("the session goes on"),
    }
}

#[test]
fn sessions_fail_for_their_reasons() {
    let text = || "why".to_string();
    assert_eq!(failure(session().step(ForwardEvent::UdpFailed(text()))), "why");
    assert_eq!(
        failure(session().step(ForwardEvent::Batch(VecDeque::new()))),
        "TUN device closed"
    );
    assert_eq!(
        failure(session().step(ForwardEvent::BatchFailed(text()))),
        "failed to read packet batch from TUN: why"
    );
    let mut waking = session();
    waking.step(ForwardEvent::TimerFired { quic: None });
    assert_eq!(
        failure(waking.step(ForwardEvent::KeepaliveFailed(text()))),
        "failed to schedule QUIC keepalive: why"
    );
    let mut writing = session();
    writing.step(ForwardEvent::UdpBatch(0));
    writing.step(ForwardEvent::Delivered);
    writing.step(ForwardEvent::H3(H3Report::Done));
    writing.step(ForwardEvent::Datagram(vec![1, 0, 1]));
    writing.step(ForwardEvent::Examined(true));
    writing.step(ForwardEvent::NoDatagram);
    assert_eq!(
        failure(writing.step(ForwardEvent::WriteFailed(text()))),
        "failed to write packet batch to TUN: why"
    );
    let mut flushing = session();
    flushing.step(ForwardEvent::UdpBatch(0));
    flushing.step(ForwardEvent::Delivered);
    flushing.step(ForwardEvent::H3(H3Report::Done));
    flushing.step(ForwardEvent::NoDatagram);
    let failed = ForwardEvent::FlushFailed(BurstError::Plain(text()));
    assert_eq!(failure(flushing.step(failed)), "UDP send failed: why");
}

#[test]
fn what_one_session_sends_another_receives() {
    let keepalive = Duration::from_secs(30);
    for (from, to) in [(5, 5), (70, 70), (5, 6)] {
        let (mut sender, _) = TunnelSession::new(&ready(from), keepalive, queue(&[b"packet"]));
        let ForwardAction::Hand(dgram) =
            sender.step(ForwardEvent::Prepared(Some(b"packet".to_vec())))
        else {
            panic!("no datagram");
        };
        let (mut receiver, _) = TunnelSession::new(&ready(to), keepalive, VecDeque::new());
        receiver.step(ForwardEvent::UdpBatch(1));
        receiver.step(ForwardEvent::Delivered);
        receiver.step(ForwardEvent::H3(H3Report::Done));
        match receiver.step(ForwardEvent::Datagram(dgram)) {
            ForwardAction::Examine(packet) => {
                assert_eq!(from, to);
                assert_eq!(packet, b"packet");
            }
            ForwardAction::Receive => assert_ne!(from, to),
            _ => panic!("neither taken nor passed over"),
        }
    }
}
