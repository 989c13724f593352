use usque::clock::Duration;
use usque::drive::{
    poll_h3_events, poll_recv_udp, DatagramOutcome, Drive, DriveEvent, DriveStep, H3Report, H3Step,
    InboundEvent, InboundStep, QueueEvent, QueueStep, ReceiveEvent, ReceiveStep, SendEvent,
    SendStep,
};
use usque::net::{NamedAddress, SocketAddress};
use usque::packet_session::{
    CloseStep, DrivePoll, ErrorKind, FlushEvent, FlushPoll, FlushStep, MasquePacketStream, NextStep,
    PacketSessionConfig, PacketSessionState, PassPoll, ReadyStep, StreamError,
    DEFAULT_QUEUE_CAPACITY,
};

use usque::setup::{Dialect, Phase, SessionSetup};

const SERVER: SocketAddress = SocketAddress::V4 { ip: 0xc000_0201, port: 443 };
const ELSEWHERE: SocketAddress = SocketAddress::V4 { ip: 0xc000_0202, port: 443 };

fn stream() -> MasquePacketStream {
    let config = PacketSessionConfig {
        endpoint: SERVER,
        bind: None,
        sni: "example.com".to_string(),
        keepalive_period: Duration::from_secs(30),
        mtu: 1280,
    };
    let setup = SessionSetup {
        dialect: Dialect::PacketStream,
        pinned: Vec::new(),
        phase: Phase::Ready,
        round: 0,
        stream_id: 0,
        accepted: true,
    };
    MasquePacketStream::connect(&config, "192.0.2.1:443".to_string(), &setup)
}

fn broken() -> DrivePoll {
    DrivePoll::Failed(StreamError::Quic("broken".to_string()))
}

fn named(addr: SocketAddress, text: &str) -> NamedAddress {
    NamedAddress { addr, text: text.to_string() }
}

#[test]
fn new_sessions_are_ready() {
    let stream = stream();
    assert_eq!(stream.state(), PacketSessionState::Ready);
    assert_eq!(stream.flow_prefix, vec![0, 0]);
    assert!(stream.outbound_queue.is_empty() && stream.inbound_queue.is_empty());
    assert_eq!(stream.endpoint.text, "192.0.2.1:443");
}

#[test]
fn sleep_is_bounded_by_the_keepalive() {
    let stream = stream();
    assert_eq!(stream.current_timeout(None).as_secs(), 30);
    assert_eq!(stream.current_timeout(Some(Duration::from_secs(5))).as_secs(), 5);
    assert_eq!(stream.current_timeout(Some(Duration::from_secs(50))).as_secs(), 30);
}

#[test]
fn packets_are_yielded_in_order() {
    let mut stream = stream();
    stream.inbound_queue.push_back(vec![1]);
    stream.inbound_queue.push_back(vec![2]);
    assert!(matches!(stream.poll_next(None), NextStep::Packet(p) if p == [1]));
    assert!(matches!(stream.poll_next(Some(DrivePoll::Done)), NextStep::Packet(p) if p == [2]));
    assert!(matches!(stream.poll_next(None), NextStep::Drive));
    assert!(matches!(stream.poll_next(Some(DrivePoll::Pending)), NextStep::Pending));
}

#[test]
fn error_is_reported_once_and_then_the_end() {
    let mut stream = stream();
    stream.inbound_queue.push_back(vec![1]);
    assert!(matches!(stream.poll_next(Some(broken())), NextStep::Packet(_)));
    assert_eq!(stream.state(), PacketSessionState::Closed);
    match stream.poll_next(None) {
        NextStep::Error(error) => {
            assert_eq!(error.message(), "broken");
            assert_eq!(error.kind(), ErrorKind::Other);
        }
        _ => panic!("no error"),
    }
    assert!(matches!(stream.poll_next(None), NextStep::End));
    assert!(matches!(stream.poll_next(None), NextStep::End));
}

#[test]
fn first_error_stays() {
    let mut stream = stream();
    stream.set_terminal_error("first".to_string());
    stream.set_terminal_error("second".to_string());
    assert_eq!(stream.terminal_io_error().message(), "first");
    assert_eq!(stream.closed_io_error().kind(), ErrorKind::BrokenPipe);
    assert_eq!(self::stream().terminal_io_error().message(), "MASQUE stream closed");
}

#[test]
fn full_queues_refuse_packets() {
    let mut stream = stream();
    for _ in 0..DEFAULT_QUEUE_CAPACITY {
        assert!(stream.start_send(Vec::new()).is_ok());
    }
    let error = stream.start_send(Vec::new()).unwrap_err();
    assert_eq!(error.kind(), ErrorKind::WouldBlock);
    assert_eq!(error.message(), "MASQUE outbound queue is full");
    assert!(matches!(stream.poll_ready(None), ReadyStep::Drive));
    assert!(matches!(stream.poll_ready(Some(DrivePoll::Done)), ReadyStep::Pending));
    assert!(matches!(stream.poll_ready(Some(DrivePoll::Pending)), ReadyStep::Pending));
    stream.outbound_queue.pop_front();
    assert!(matches!(stream.poll_ready(Some(DrivePoll::Done)), ReadyStep::Ready));
    assert!(matches!(stream.poll_ready(None), ReadyStep::Ready));
}

#[test]
fn closed_streams_refuse_packets() {
    let mut stream = stream();
    assert!(matches!(stream.poll_ready(Some(broken())), ReadyStep::Failed(StreamError::Quic(_))));
    let error = stream.start_send(vec![1]).unwrap_err();
    assert_eq!(error.kind(), ErrorKind::BrokenPipe);
    assert_eq!(error.message(), "MASQUE stream closed");
    assert!(matches!(stream.poll_ready(None), ReadyStep::Failed(StreamError::Closed)));
    assert!(stream.outbound_queue.is_empty());
}

#[test]
fn flushing_drives_until_the_queue_is_empty() {
    let mut stream = stream();
    stream.start_send(vec![1]).expect("room");
    stream.start_send(vec![2]).expect("room");
    assert!(matches!(
        stream.poll_flush(FlushEvent::Begin),
        FlushStep::Drive { queue_before: 2 }
    ));
    let driven = |queue_before| FlushEvent::Driven { queue_before, outcome: DrivePoll::Done };
    assert!(matches!(stream.poll_flush(driven(2)), FlushStep::Pending));
    stream.outbound_queue.pop_front();
    assert!(matches!(stream.poll_flush(driven(2)), FlushStep::Drive { queue_before: 1 }));
    stream.outbound_queue.pop_front();
    assert!(matches!(stream.poll_flush(driven(1)), FlushStep::Send));
    assert!(matches!(
        stream.poll_flush(FlushEvent::Sent(PassPoll::Pending)),
        FlushStep::Pending
    ));
    assert!(matches!(
        stream.poll_flush(FlushEvent::Sent(PassPoll::Ready(false))),
        FlushStep::Done
    ));
    let failed = FlushEvent::Sent(PassPoll::Failed(StreamError::PartialSend));
    assert!(matches!(stream.poll_flush(failed), FlushStep::Failed(StreamError::PartialSend)));
    match stream.poll_flush(FlushEvent::Begin) {
        FlushStep::Failed(error) => assert_eq!(error.message(), "partial UDP send"),
        _ => panic!("no error"),
    }
}

#[test]
fn flushing_fails_with_the_drive() {
    let mut stream = stream();
    let pending = FlushEvent::Driven { queue_before: 0, outcome: DrivePoll::Pending };
    assert!(matches!(stream.poll_flush(pending), FlushStep::Pending));
    let failed = FlushEvent::Driven { queue_before: 0, outcome: broken() };
    assert!(matches!(stream.poll_flush(failed), FlushStep::Failed(StreamError::Quic(_))));
    assert_eq!(stream.state(), PacketSessionState::Closed);
}

#[test]
fn closing_flushes_and_ends_the_stream() {
    let mut stream = stream();
    assert!(matches!(
        stream.poll_close(None),
        CloseStep::CloseAndFlush { code: 0, reason: "stream closed" }
    ));
    assert!(matches!(stream.poll_close(Some(FlushPoll::Pending)), CloseStep::Pending));
    assert_eq!(stream.state(), PacketSessionState::Ready);
    assert!(matches!(stream.poll_close(Some(FlushPoll::Done)), CloseStep::Done));
    assert_eq!(stream.state(), PacketSessionState::Closed);
    assert!(matches!(stream.poll_next(None), NextStep::End));
    assert!(matches!(stream.start_send(vec![1]), Err(StreamError::Closed)));
}

#[test]
fn closing_a_failed_stream_keeps_its_error() {
    let mut stream = stream();
    stream.set_terminal_error("first".to_string());
    assert!(matches!(stream.poll_close(None), CloseStep::Flush));
    let failed = FlushPoll::Failed(StreamError::Terminal("first".to_string()));
    assert!(matches!(stream.poll_close(Some(failed)), CloseStep::Failed(StreamError::Terminal(_))));
    assert_eq!(stream.terminal_io_error().message(), "first");
    assert!(matches!(stream.poll_next(None), NextStep::Error(_)));
}

#[test]
fn errors_have_their_texts_and_kinds() {
    let target = StreamError::UnexpectedTarget {
        to: "192.0.2.2:443".to_string(),
        expected: "192.0.2.1:443".to_string(),
    };
    assert_eq!(
        target.message(),
        "unexpected QUIC send target 192.0.2.2:443 (expected 192.0.2.1:443)"
    );
    assert_eq!(target.kind(), ErrorKind::Other);
    assert_eq!(StreamError::ConnectionClosed.message(), "MASQUE connection closed");
    assert_eq!(StreamError::H3Poll("why".to_string()).message(), "h3 poll error: why");
    assert_eq!(StreamError::Socket("why".to_string()).message(), "why");
    assert_eq!(StreamError::Socket("why".to_string()).kind(), ErrorKind::Reported);
    assert_eq!(StreamError::PartialSend.kind(), ErrorKind::WriteZero);
}

#[test]
fn queue_goes_to_the_transport_in_order() {
    let mut stream = stream();
    for byte in 1..=4 {
        stream.start_send(vec![byte]).expect("room");
    }
    let mut progressed = false;
    let prepared = |step: QueueStep| match step {
        QueueStep::Prepare(packet) => packet[0],
        _ => panic!("no packet"),
    };
    assert_eq!(prepared(stream.flush_pending_queue(&mut progressed, QueueEvent::Begin)), 1);
    let ready = QueueEvent::Prepared(Some(vec![11]));
    assert!(matches!(
        stream.flush_pending_queue(&mut progressed, ready),
        QueueStep::Hand(dgram) if dgram == [0, 0, 11]
    ));
    assert!(!progressed);
    let sent = QueueEvent::Handed(DatagramOutcome::Sent);
    assert_eq!(prepared(stream.flush_pending_queue(&mut progressed, sent)), 2);
    assert!(progressed);
    // A packet that cannot be prepared, and one that the transport refuses, are dropped.
    let unprepared = QueueEvent::Prepared(None);
    assert_eq!(prepared(stream.flush_pending_queue(&mut progressed, unprepared)), 3);
    let refused = QueueEvent::Handed(DatagramOutcome::Failed("why".to_string()));
    assert_eq!(prepared(stream.flush_pending_queue(&mut progressed, refused)), 4);
    // A full transport leaves the packet in the queue.
    let full = QueueEvent::Handed(DatagramOutcome::Done);
    assert!(matches!(
        stream.flush_pending_queue(&mut progressed, full),
        QueueStep::Return(true)
    ));
    assert_eq!(stream.outbound_queue.len(), 1);
    let unsupported = QueueEvent::Handed(DatagramOutcome::InvalidState);
    assert!(matches!(
        stream.flush_pending_queue(&mut progressed, unsupported),
        QueueStep::Return(true)
    ));
    assert!(stream.outbound_queue.is_empty());
}

#[test]
fn packets_wait_for_the_socket() {
    let mut stream = stream();
    let mut flushed = false;
    let mut send = |event| stream.poll_flush_conn_send(&mut flushed, event);
    assert!(matches!(send(SendEvent::Begin), SendStep::PollWritable));
    assert!(matches!(send(SendEvent::Writable), SendStep::MakePacket));
    let packet = SendEvent::Packet { len: 1200, to: named(SERVER, "192.0.2.1:443") };
    assert!(matches!(send(packet), SendStep::TrySend(1200)));
    assert!(matches!(send(SendEvent::WouldBlock), SendStep::Return(PassPoll::Pending)));
    assert!(matches!(send(SendEvent::Begin), SendStep::TrySend(1200)));
    assert!(matches!(send(SendEvent::Sent(1200)), SendStep::PollWritable));
    assert!(matches!(send(SendEvent::NotWritable), SendStep::Return(PassPoll::Ready(true))));
    assert!(matches!(send(SendEvent::NothingToSend), SendStep::Return(PassPoll::Ready(true))));
    assert!(flushed && stream.pending_send.is_none());
}

#[test]
fn sending_fails_for_its_reasons() {
    let mut flushed = false;
    let mut stream = stream();
    let packet = SendEvent::Packet { len: 9, to: named(ELSEWHERE, "192.0.2.2:443") };
    match stream.poll_flush_conn_send(&mut flushed, packet) {
        SendStep::Return(PassPoll::Failed(error)) => assert_eq!(
            error.message(),
            "unexpected QUIC send target 192.0.2.2:443 (expected 192.0.2.1:443)"
        ),
        _ => panic!("the target is wrong"),
    }
    let mut stream = self::stream();
    let packet = SendEvent::Packet { len: 9, to: named(SERVER, "192.0.2.1:443") };
    stream.poll_flush_conn_send(&mut flushed, packet);
    assert!(matches!(
        stream.poll_flush_conn_send(&mut flushed, SendEvent::Sent(8)),
        SendStep::Return(PassPoll::Failed(StreamError::PartialSend))
    ));
    assert!(matches!(
        stream.poll_flush_conn_send(&mut flushed, SendEvent::SendFailed("why".to_string())),
        SendStep::Return(PassPoll::Failed(StreamError::Socket(_)))
    ));
    let mut stream = self::stream();
    assert!(matches!(
        stream.poll_flush_conn_send(&mut flushed, SendEvent::WritableFailed("why".to_string())),
        SendStep::Return(PassPoll::Failed(StreamError::Socket(_)))
    ));
    assert!(matches!(
        stream.poll_flush_conn_send(&mut flushed, SendEvent::QuicFailed("why".to_string())),
        SendStep::Return(PassPoll::Failed(StreamError::Quic(_)))
    ));
    assert!(!flushed);
}

#[test]
fn datagrams_of_the_flow_are_taken_in() {
    let mut stream = stream();
    let mut progressed = false;
    let mut take = |event| stream.poll_incoming_datagrams(&mut progressed, event);
    assert!(matches!(take(InboundEvent::Begin), InboundStep::Receive));
    assert!(matches!(take(InboundEvent::Datagram(vec![1, 0, 9])), InboundStep::Receive));
    assert!(matches!(
        take(InboundEvent::Datagram(vec![0, 0, 9])),
        InboundStep::Examine(packet) if packet == [9]
    ));
    assert!(matches!(take(InboundEvent::Examined(false)), InboundStep::Receive));
    take(InboundEvent::Datagram(vec![0, 0, 8]));
    assert!(matches!(take(InboundEvent::Examined(true)), InboundStep::Receive));
    assert!(matches!(take(InboundEvent::Done), InboundStep::Return(true)));
    assert!(matches!(take(InboundEvent::Failed), InboundStep::Return(true)));
    assert!(progressed);
    assert_eq!(stream.inbound_queue, [vec![8]]);
}

#[test]
fn full_inbound_queues_take_nothing_in() {
    let mut stream = stream();
    let mut progressed = false;
    for _ in 1..DEFAULT_QUEUE_CAPACITY {
        stream.inbound_queue.push_back(Vec::new());
    }
    stream.poll_incoming_datagrams(&mut progressed, InboundEvent::Datagram(vec![0, 0, 9]));
    assert!(matches!(
        stream.poll_incoming_datagrams(&mut progressed, InboundEvent::Examined(true)),
        InboundStep::Return(true)
    ));
    progressed = false;
    assert_eq!(stream.inbound_queue.len(), DEFAULT_QUEUE_CAPACITY);
    assert!(matches!(
        stream.poll_incoming_datagrams(&mut progressed, InboundEvent::Begin),
        InboundStep::Return(false)
    ));
}

#[test]
fn receiving_empties_the_socket() {
    let mut received = false;
    let mut step = |event| poll_recv_udp(&mut received, event);
    assert!(matches!(step(ReceiveEvent::Begin), ReceiveStep::PollReadable));
    assert!(matches!(
        step(ReceiveEvent::NotReadable),
        ReceiveStep::Return(PassPoll::Pending)
    ));
    assert!(matches!(step(ReceiveEvent::Readable), ReceiveStep::TryReceive));
    assert!(matches!(step(ReceiveEvent::Received(80)), ReceiveStep::Deliver(80)));
    assert!(matches!(step(ReceiveEvent::Delivered), ReceiveStep::TryReceive));
    assert!(matches!(step(ReceiveEvent::WouldBlock), ReceiveStep::PollReadable));
    assert!(matches!(
        step(ReceiveEvent::NotReadable),
        ReceiveStep::Return(PassPoll::Ready(true))
    ));
    assert!(matches!(
        step(ReceiveEvent::ReadableFailed("why".to_string())),
        ReceiveStep::Return(PassPoll::Failed(StreamError::Socket(_)))
    ));
    assert!(matches!(
        step(ReceiveEvent::ReceiveFailed("why".to_string())),
        ReceiveStep::Return(PassPoll::Failed(StreamError::Socket(_)))
    ));
}

#[test]
fn h3_reports_are_taken_to_the_end() {
    let mut progressed = false;
    assert!(matches!(poll_h3_events(&mut progressed, H3Report::Done), H3Step::Return(Ok(false))));
    assert!(matches!(poll_h3_events(&mut progressed, H3Report::Event), H3Step::Poll));
    assert!(matches!(poll_h3_events(&mut progressed, H3Report::Done), H3Step::Return(Ok(true))));
    match poll_h3_events(&mut progressed, H3Report::Failed("why".to_string())) {
        H3Step::Return(Err(error)) => assert_eq!(error.message(), "h3 poll error: why"),
        _ => panic!("no error"),
    }
}

/// Drives one round in which the passes named do something, and returns the last step.
fn round(drive: &mut Drive, queue: bool, timer: bool) -> DriveStep {
    assert!(matches!(drive.poll_drive(DriveEvent::Queue(queue)), DriveStep::Send));
    assert!(matches!(drive.poll_drive(DriveEvent::Send(PassPoll::Pending)), DriveStep::Receive));
    assert!(matches!(drive.poll_drive(DriveEvent::Receive(PassPoll::Pending)), DriveStep::PollH3));
    assert!(matches!(drive.poll_drive(DriveEvent::H3(Ok(false))), DriveStep::TakeIn));
    assert!(matches!(drive.poll_drive(DriveEvent::Inbound(false)), DriveStep::PollTimer));
    let send = drive.poll_drive(DriveEvent::Timer(timer));
    assert!(if timer {
        matches!(send, DriveStep::ExpireAndSend)
    } else {
        matches!(send, DriveStep::Send)
    });
    assert!(matches!(
        drive.poll_drive(DriveEvent::Send(PassPoll::Ready(false))),
        DriveStep::CheckClosed
    ));
    drive.poll_drive(DriveEvent::Closed(false))
}

#[test]
fn driving_ends_with_a_quiet_round() {
    let mut drive = Drive::new();
    assert!(matches!(round(&mut drive, false, false), DriveStep::Return(DrivePoll::Pending)));
    let mut drive = Drive::new();
    assert!(matches!(round(&mut drive, true, false), DriveStep::FlushQueue));
    assert!(matches!(round(&mut drive, false, true), DriveStep::FlushQueue));
    assert!(matches!(round(&mut drive, false, false), DriveStep::Return(DrivePoll::Done)));
}

#[test]
fn driving_fails_with_its_pass() {
    let mut drive = Drive::new();
    drive.poll_drive(DriveEvent::Queue(true));
    let failed = DriveEvent::Send(PassPoll::Failed(StreamError::PartialSend));
    assert!(matches!(
        drive.poll_drive(failed),
        DriveStep::Return(DrivePoll::Failed(StreamError::PartialSend))
    ));
    let mut drive = Drive::new();
    drive.poll_drive(DriveEvent::Queue(true));
    drive.poll_drive(DriveEvent::Send(PassPoll::Ready(true)));
    drive.poll_drive(DriveEvent::Receive(PassPoll::Ready(true)));
    drive.poll_drive(DriveEvent::H3(Ok(true)));
    drive.poll_drive(DriveEvent::Inbound(true));
    drive.poll_drive(DriveEvent::Timer(false));
    drive.poll_drive(DriveEvent::Send(PassPoll::Pending));
    assert!(matches!(
        drive.poll_drive(DriveEvent::Closed(true)),
        DriveStep::Return(DrivePoll::Failed(StreamError::ConnectionClosed))
    ));
}

#[test]
fn what_one_stream_sends_another_receives() {
    let mut sender = stream();
    let mut receiver = stream();
    let mut progressed = false;
    sender.start_send(b"packet".to_vec()).expect("room");
    sender.flush_pending_queue(&mut progressed, QueueEvent::Begin);
    let prepared = QueueEvent::Prepared(Some(b"packet".to_vec()));
    let QueueStep::Hand(dgram) = sender.flush_pending_queue(&mut progressed, prepared) else {
        panic!("no datagram");
    };
    assert!(matches!(
        receiver.poll_incoming_datagrams(&mut progressed, InboundEvent::Datagram(dgram)),
        InboundStep::Examine(packet) if packet == b"packet"
    ));
}
