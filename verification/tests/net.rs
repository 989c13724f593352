use usque::net::{
    bind_address, buffer_warnings, detect_udp_gso, send_udp_gso, GsoAttempt, GsoStep, ShortBuffer,
    SocketAddress, UDP_SOCKET_BUFFER_BYTES,
};

const V4: SocketAddress = SocketAddress::V4 { ip: 0x7f00_0001, port: 443 };
const V6: SocketAddress = SocketAddress::V6 { ip: 1, port: 443, flowinfo: 0, scope_id: 3 };

#[test]
fn binding_follows_the_family() {
    assert_eq!(bind_address(None, V4), SocketAddress::V4 { ip: 0, port: 0 });
    assert_eq!(
        bind_address(None, V6),
        SocketAddress::V6 { ip: 0, port: 0, flowinfo: 0, scope_id: 0 }
    );
    assert_eq!(bind_address(Some(V4), V6), V4);
}

#[test]
fn small_buffers_are_warned_of() {
    let full = UDP_SOCKET_BUFFER_BYTES;
    assert_eq!(full, 4 * 1024 * 1024);
    assert!(buffer_warnings(full, full).is_empty());
    assert_eq!(
        buffer_warnings(full - 1, 5),
        vec![ShortBuffer::Receive { actual: full - 1 }, ShortBuffer::Send { actual: 5 }]
    );
    assert_eq!(buffer_warnings(full, 5), vec![ShortBuffer::Send { actual: 5 }]);
}

#[test]
fn segment_size_is_an_option_value() {
    assert_eq!(detect_udp_gso(1350), Some(1350));
    assert_eq!(detect_udp_gso(i32::MAX as usize), Some(i32::MAX));
    assert_eq!(detect_udp_gso(i32::MAX as usize + 1), None);
}

#[test]
fn segmented_sending_tries_again_when_blocked() {
    assert_eq!(send_udp_gso(1350, None), GsoStep::Attempt(1350));
    assert_eq!(send_udp_gso(1350, Some(GsoAttempt::WouldBlock)), GsoStep::Attempt(1350));
    assert_eq!(send_udp_gso(1350, Some(GsoAttempt::Sent(2700))), GsoStep::Finished(2700));
    assert_eq!(send_udp_gso(1350, Some(GsoAttempt::Refused)), GsoStep::GiveUp);
    assert_eq!(send_udp_gso(65_536, None), GsoStep::SegmentTooLarge);
}
