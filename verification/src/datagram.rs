//! IP packets inside HTTP datagrams: a datagram is the flow identifier, the context identifier
//! and the packet, the first two as variable-length integers.
use crate::varint::{
    get_varint, law_varint_round_trip, put_varint, varint_decode, varint_encode, VARINT_LIMIT,
};
use vstd::prelude::*;
use vstd::slice::slice_subrange;

verus! {

/// The bytes that the kernel wants before each packet of a batch.
pub const VIRTIO_NET_HDR_LEN: usize = 10;

/// What precedes each packet of a flow: its identifier, and the context identifier 0.
pub open spec fn flow_prefix(flow_id: nat) -> Seq<u8> {
    varint_encode(flow_id).push(0)
}

/// Where the packet starts in a datagram of the flow, where it is one: the flow identifier is the
/// expected one, the context identifier is 0 and the packet is not empty.
pub open spec fn packet_offset(dgram: Seq<u8>, expected_flow_id: nat) -> Option<nat> {
    match varint_decode(dgram) {
        Some((flow_id, a)) => match varint_decode(dgram.skip(a as int)) {
            Some((context_id, b)) => if flow_id == expected_flow_id && context_id == 0 && a + b
                < dgram.len() {
                Some(a + b)
            } else {
                None
            },
            None => None,
        },
        None => None,
    }
}

/// What precedes each packet of a flow.
pub fn build_flow_prefix(flow_id: u64) -> (r: Vec<u8>)
    requires
        flow_id < VARINT_LIMIT,
    ensures
        r@ == flow_prefix(flow_id as nat),
{
    let mut prefix = put_varint(flow_id);
    prefix.push(0x00);
    prefix
}

/// The datagram that carries a packet: the flow's prefix and the packet as it was prepared for
/// sending. There is none for a packet that could not be prepared.
pub fn build_flow_datagram(flow_prefix: &[u8], prepared: Option<&[u8]>) -> (r: Option<Vec<u8>>)
    ensures
        match prepared {
            Some(packet) => r matches Some(dgram) && dgram@ == flow_prefix@ + packet@,
            None => r is None,
        },
{
    match prepared {
        Some(packet) => {
            let mut dgram: Vec<u8> = Vec::new();
            dgram.extend_from_slice(flow_prefix);
            dgram.extend_from_slice(packet);
            assert(dgram@ =~= flow_prefix@ + packet@);
            Some(dgram)
        },
        None => None,
    }
}

/// Where the packet starts in a datagram of the flow, where it is one.
pub fn parse_datagram_offset(dgram: &[u8], expected_flow_id: u64) -> (r: Option<usize>)
    ensures
        match packet_offset(dgram@, expected_flow_id as nat) {
            Some(offset) => r == Some(offset as usize) && offset < dgram@.len(),
            None => r is None,
        },
{
    proof {
        lemma_decode_width(dgram@);
    }
    let (flow_id, a) = match get_varint(dgram) {
        Some(found) => found,
        None => return None,
    };
    if flow_id != expected_flow_id {
        return None;
    }
    let rest = slice_subrange(dgram, a, dgram.len());
    assert(rest@ =~= dgram@.skip(a as int));
    proof {
        lemma_decode_width(rest@);
    }
    let (context_id, b) = match get_varint(rest) {
        Some(found) => found,
        None => return None,
    };
    if context_id != 0 {
        return None;
    }
    let offset: usize = a + b;
    if offset >= dgram.len() {
        return None;
    }
    Some(offset)
}

/// The packet in a datagram of the flow, where it is one.
pub fn parse_datagram<'a>(dgram: &'a [u8], expected_flow_id: u64) -> (r: Option<&'a [u8]>)
    ensures
        match packet_offset(dgram@, expected_flow_id as nat) {
            Some(offset) => r matches Some(packet) && packet@ == dgram@.skip(offset as int)
                && packet@.len() > 0,
            None => r is None,
        },
{
    match parse_datagram_offset(dgram, expected_flow_id) {
        Some(offset) => {
            let packet = slice_subrange(dgram, offset, dgram.len());
            assert(packet@ =~= dgram@.skip(offset as int));
            Some(packet)
        },
        None => None,
    }
}

/// The constant `tun_rs::VIRTIO_NET_HDR_LEN`.
///
/// Trusted: it is the size of a header of two bytes and four 16-bit fields.
#[verifier::external_body]
pub(crate) fn virtio_net_hdr_len() -> (r: usize)
    ensures
        r == VIRTIO_NET_HDR_LEN,
{
    tun_rs::VIRTIO_NET_HDR_LEN
}

/// How many packets the kernel takes in a batch.
pub const TUN_BATCH_SIZE: usize = 128;

/// The constant `tun_rs::IDEAL_BATCH_SIZE`.
///
/// Trusted: its value.
#[verifier::external_body]
pub(crate) fn ideal_batch_size() -> (r: usize)
    ensures
        r == TUN_BATCH_SIZE,
{
    tun_rs::IDEAL_BATCH_SIZE
}

/// A packet as the kernel takes it in a batch: behind an empty header.
pub open spec fn staged_packet(packet: Seq<u8>) -> Seq<u8> {
    Seq::new(VIRTIO_NET_HDR_LEN as nat, |i: int| 0u8) + packet
}

/// Puts a packet into a buffer of a batch: an empty header, then the packet. What was there is
/// gone.
pub fn stage_tun_packet(buf: &mut Vec<u8>, packet: &[u8])
    ensures
        final(buf)@ == staged_packet(packet@),
{
    buf.clear();
    let header: usize = virtio_net_hdr_len();
    let mut i: usize = 0;
    while i < header
        invariant
            i <= header,
            buf@ == Seq::new(i as nat, |k: int| 0u8),
        decreases header - i,
    {
        buf.push(0);
        i = i + 1;
        assert(buf@ =~= Seq::new(i as nat, |k: int| 0u8));
    }
    buf.extend_from_slice(packet);
    assert(buf@ =~= staged_packet(packet@));
}

/// An integer that was read takes between one and eight bytes, all of which are there, and is
/// below the limit.
proof fn lemma_decode_width(bytes: Seq<u8>)
    ensures
        varint_decode(bytes) matches Some((value, width)) ==> 1 <= width <= 8 && width
            <= bytes.len() && value < VARINT_LIMIT,
{
}

/// What is sent is received: the datagram of a packet that is not empty gives the packet back to
/// a receiver of the same flow, and nothing to a receiver of any other.
pub proof fn law_datagram_round_trip(flow_id: nat, other_flow_id: nat, packet: Seq<u8>)
    requires
        flow_id < VARINT_LIMIT,
        packet.len() > 0,
    ensures
        packet_offset(flow_prefix(flow_id) + packet, other_flow_id) == if other_flow_id == flow_id {
            Some(flow_prefix(flow_id).len())
        } else {
            None
        },
        (flow_prefix(flow_id) + packet).skip(flow_prefix(flow_id).len() as int) == packet,
{
    let dgram = flow_prefix(flow_id) + packet;
    let code = varint_encode(flow_id);
    let rest = seq![0u8] + packet;
    assert(dgram =~= code + rest);
    law_varint_round_trip(flow_id, rest);
    assert(dgram.skip(code.len() as int) =~= rest);
    law_varint_round_trip(0, packet);
    assert(varint_encode(0) =~= seq![0u8]) by {
        reveal_with_fuel(crate::varint::be_bytes, 2);
    }
    assert(dgram.skip(flow_prefix(flow_id).len() as int) =~= packet);
}

/// Only the flow's own packets are taken in: a datagram of another flow, or with another context than
/// 0, or with nothing behind the two, gives nothing.
pub proof fn law_other_datagrams_are_dropped(
    flow_id: nat,
    context_id: nat,
    packet: Seq<u8>,
    expected_flow_id: nat,
)
    requires
        flow_id < VARINT_LIMIT,
        context_id < VARINT_LIMIT,
    ensures
        ({
            let head = varint_encode(flow_id) + varint_encode(context_id);
            packet_offset(head + packet, expected_flow_id) == if flow_id == expected_flow_id
                && context_id == 0 && packet.len() > 0 {
                Some(head.len())
            } else {
                None
            }
        }),
{
    let flow = varint_encode(flow_id);
    let context = varint_encode(context_id);
    let dgram = flow + context + packet;
    assert(dgram =~= flow + (context + packet));
    law_varint_round_trip(flow_id, context + packet);
    assert(dgram.skip(flow.len() as int) =~= context + packet);
    law_varint_round_trip(context_id, packet);
}

/// A datagram that is cut off within the flow or the context gives nothing, and what is taken of any
/// other is the rest of it, never empty.
pub proof fn law_packet_is_the_rest(dgram: Seq<u8>, expected_flow_id: nat)
    ensures
        dgram.len() < 3 ==> packet_offset(dgram, expected_flow_id) is None,
        packet_offset(dgram, expected_flow_id) matches Some(offset) ==> 2 <= offset <= 16 && offset
            < dgram.len(),
{
    lemma_decode_width(dgram);
    if let Some((_, a)) = varint_decode(dgram) {
        lemma_decode_width(dgram.skip(a as int));
    }
}

/// A packet in a batch is found again behind ten empty bytes.
pub proof fn law_staged_packet_is_behind_its_header(packet: Seq<u8>)
    ensures
        staged_packet(packet).len() == packet.len() + 10,
        forall|i: int| 0 <= i < 10 ==> #[trigger] staged_packet(packet)[i] == 0,
        staged_packet(packet).skip(10) == packet,
{
    assert(staged_packet(packet).skip(10) =~= packet);
}

} // verus!
