use usque::datagram::{
    build_flow_datagram, build_flow_prefix, parse_datagram, parse_datagram_offset, stage_tun_packet,
};

fn encode_varint(value: u64) -> Vec<u8> {
    let mut tmp = [0u8; 8];
    let mut builder = octets::OctetsMut::with_slice(&mut tmp);
    builder.put_varint(value).unwrap();
    let len = builder.off();
    tmp[..len].to_vec()
}

fn make_datagram(flow_id: u64, context_id: u64, payload: &[u8]) -> Vec<u8> {
    let mut dgram = Vec::new();
    dgram.extend_from_slice(&encode_varint(flow_id));
    dgram.extend_from_slice(&encode_varint(context_id));
    dgram.extend_from_slice(payload);
    dgram
}

#[test]
fn parse_datagram_offset_valid() {
    let payload = b"hello";
    let mut datagram = Vec::new();
    datagram.extend_from_slice(&encode_varint(0));
    datagram.extend_from_slice(&encode_varint(0));
    datagram.extend_from_slice(payload);

    let offset = parse_datagram_offset(&datagram, 0).unwrap();
    assert_eq!(&datagram[offset..], payload);
}

#[test]
fn build_flow_datagram_carries_the_prepared_packet() {
    let flow_prefix = build_flow_prefix(0);
    let packet = vec![
        0x45, 0x00, 0x00, 0x14, 0x00, 0x00, 0x00, 0x00, 63, 0x11, 0x00, 0x00, 10, 0, 0, 1, 10, 0,
        0, 2,
    ];
    let datagram = build_flow_datagram(&flow_prefix, Some(&packet)).unwrap();
    assert_eq!(datagram[..flow_prefix.len()], flow_prefix);
    assert_eq!(datagram[flow_prefix.len()..], packet);
}

#[test]
fn unprepared_packets_make_no_datagram() {
    assert_eq!(build_flow_datagram(&build_flow_prefix(0), None), None);
    assert_eq!(build_flow_datagram(&[1, 2], Some(&[3])), Some(vec![1, 2, 3]));
}

#[test]
fn parse_datagram_valid() {
    let payload = b"hello world";
    let dgram = make_datagram(0, 0, payload);
    let result = parse_datagram(&dgram, 0);
    assert_eq!(result, Some(payload.as_ref()));
}

#[test]
fn parse_datagram_flow_id_mismatch() {
    let dgram = make_datagram(1, 0, b"data");
    assert_eq!(parse_datagram(&dgram, 0), None);
}

#[test]
fn parse_datagram_nonzero_context() {
    let dgram = make_datagram(0, 1, b"data");
    assert_eq!(parse_datagram(&dgram, 0), None);
}

#[test]
fn parse_datagram_empty_payload() {
    let dgram = make_datagram(0, 0, b"");
    // Empty payload means off == dgram.len(), should return None
    assert_eq!(parse_datagram(&dgram, 0), None);
}

#[test]
fn parse_datagram_large_flow_id() {
    // flow_id that requires 4-byte varint encoding
    let flow_id = 16384;
    let payload = vec![0xABu8; 1300];
    let dgram = make_datagram(flow_id, 0, &payload);
    let result = parse_datagram(&dgram, flow_id);
    assert_eq!(result, Some(payload.as_ref()));
}

#[test]
fn parse_datagram_truncated() {
    // Just a single byte - can't even decode flow_id
    let dgram = vec![0xFF];
    assert_eq!(parse_datagram(&dgram, 0), None);
}

#[test]
fn flow_prefixes_are_shortest_varints() {
    assert_eq!(build_flow_prefix(0), vec![0x00, 0x00]);
    assert_eq!(build_flow_prefix(63), vec![0x3f, 0x00]);
    assert_eq!(build_flow_prefix(64), vec![0x40, 0x40, 0x00]);
    assert_eq!(build_flow_prefix(16_383), vec![0x7f, 0xff, 0x00]);
    assert_eq!(build_flow_prefix(16_384), vec![0x80, 0x00, 0x40, 0x00, 0x00]);
    assert_eq!(
        build_flow_prefix((1 << 62) - 1),
        vec![0xff, 0xff, 0xff, 0xff, 0xff, 0xff, 0xff, 0xff, 0x00]
    );
}

#[test]
fn packets_survive_the_round_trip() {
    for flow_id in [0u64, 1, 63, 64, 16_383, 16_384, 1 << 30, (1 << 62) - 1] {
        let dgram = build_flow_datagram(&build_flow_prefix(flow_id), Some(b"packet")).unwrap();
        assert_eq!(parse_datagram(&dgram, flow_id), Some(b"packet".as_ref()));
        assert_eq!(parse_datagram(&dgram, flow_id ^ 1), None);
    }
}

#[test]
fn longer_varints_are_read_too() {
    // Zero in two bytes, then zero in eight.
    let dgram = [0x40, 0x00, 0xc0, 0, 0, 0, 0, 0, 0, 0, 0x55];
    assert_eq!(parse_datagram_offset(&dgram, 0), Some(10));
    assert_eq!(parse_datagram(&dgram[..9], 0), None);
    assert_eq!(parse_datagram(&[], 0), None);
    assert_eq!(parse_datagram(&[0x00], 0), None);
}

#[test]
fn staged_packets_have_an_empty_header() {
    let mut buf = vec![0xff; 40];
    stage_tun_packet(&mut buf, b"packet");
    assert_eq!(buf.len(), tun_rs::VIRTIO_NET_HDR_LEN + 6);
    assert!(buf[..tun_rs::VIRTIO_NET_HDR_LEN].iter().all(|byte| *byte == 0));
    assert_eq!(&buf[10..], b"packet");
}
