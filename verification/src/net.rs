//! Socket addresses, and the decisions around the UDP socket.
use vstd::prelude::*;

verus! {

/// The address of a UDP socket.
#[derive(Debug, Clone, Copy, PartialEq, Eq, Structural)]
pub enum SocketAddress {
    V4 { ip: u32, port: u16 },
    V6 { ip: u128, port: u16, flowinfo: u32, scope_id: u32 },
}

/// An address together with the text it is shown as.
#[derive(Debug)]
pub struct NamedAddress {
    pub addr: SocketAddress,
    pub text: String,
}

/// The address of the same family that leaves the choice of interface and port to the system.
pub open spec fn unspecified_like(endpoint: SocketAddress) -> SocketAddress {
    match endpoint {
        SocketAddress::V4 { .. } => SocketAddress::V4 { ip: 0, port: 0 },
        SocketAddress::V6 { .. } => SocketAddress::V6 { ip: 0, port: 0, flowinfo: 0, scope_id: 0 },
    }
}

/// The address to bind to in order to reach `endpoint`: the one asked for, or else any of the
/// same family.
pub open spec fn bound_for(bind: Option<SocketAddress>, endpoint: SocketAddress) -> SocketAddress {
    match bind {
        Some(addr) => addr,
        None => unspecified_like(endpoint),
    }
}

/// The address to bind to in order to reach `endpoint`: the one asked for, or else any of the
/// same family.
pub fn bind_address(bind: Option<SocketAddress>, endpoint: SocketAddress) -> (r: SocketAddress)
    ensures
        r == bound_for(bind, endpoint),
{
    match bind {
        Some(addr) => addr,
        None => match endpoint {
            SocketAddress::V4 { .. } => SocketAddress::V4 { ip: 0, port: 0 },
            SocketAddress::V6 { .. } => SocketAddress::V6 {
                ip: 0,
                port: 0,
                flowinfo: 0,
                scope_id: 0,
            },
        },
    }
}

/// The size of the socket's buffers, in bytes, that is asked of the system.
pub const UDP_SOCKET_BUFFER_BYTES: usize = 4_194_304;

/// A buffer that the system made smaller than it was asked to.
#[derive(Debug, Clone, Copy, PartialEq, Eq, Structural)]
pub enum ShortBuffer {
    Receive { actual: usize },
    Send { actual: usize },
}

/// The warnings due after the socket's buffers were set: one for each that is too small, the
/// receiving one first.
pub open spec fn short_buffers(recv_buffer_bytes: usize, send_buffer_bytes: usize) -> Seq<
    ShortBuffer,
> {
    (if recv_buffer_bytes < UDP_SOCKET_BUFFER_BYTES {
        seq![ShortBuffer::Receive { actual: recv_buffer_bytes }]
    } else {
        Seq::empty()
    }) + (if send_buffer_bytes < UDP_SOCKET_BUFFER_BYTES {
        seq![ShortBuffer::Send { actual: send_buffer_bytes }]
    } else {
        Seq::empty()
    })
}

/// The warnings due after the socket's buffers were set: one for each that is too small, the
/// receiving one first.
pub fn buffer_warnings(recv_buffer_bytes: usize, send_buffer_bytes: usize) -> (r: Vec<ShortBuffer>)
    ensures
        r@ == short_buffers(recv_buffer_bytes, send_buffer_bytes),
{
    let mut warnings: Vec<ShortBuffer> = Vec::new();
    if recv_buffer_bytes < UDP_SOCKET_BUFFER_BYTES {
        warnings.push(ShortBuffer::Receive { actual: recv_buffer_bytes });
    }
    if send_buffer_bytes < UDP_SOCKET_BUFFER_BYTES {
        warnings.push(ShortBuffer::Send { actual: send_buffer_bytes });
    }
    warnings
}

/// The value of the socket option that turns segmentation offload on, where the segment size can
/// be expressed as one. Without it there is no offload.
pub open spec fn gso_option(segment_size: usize) -> Option<i32> {
    if segment_size <= i32::MAX {
        Some(segment_size as i32)
    } else {
        None
    }
}

/// The value of the socket option that turns segmentation offload on, where the segment size can
/// be expressed as one. Without it there is no offload.
pub fn detect_udp_gso(segment_size: usize) -> (r: Option<i32>)
    ensures
        r == gso_option(segment_size),
{
    if segment_size <= 0x7fff_ffff {
        Some(segment_size as i32)
    } else {
        None
    }
}

/// How an attempt to send a segmented buffer ended.
#[derive(Debug, Clone, Copy, PartialEq, Eq, Structural)]
pub enum GsoAttempt {
    /// All was taken: this many bytes.
    Sent(usize),
    /// The socket was not ready after all.
    WouldBlock,
    /// The system refused.
    Refused,
}

/// What to do about sending a segmented buffer.
#[derive(Debug, Clone, Copy, PartialEq, Eq, Structural)]
pub enum GsoStep {
    /// Wait until the socket is writable, then send with segments of this size.
    Attempt(u16),
    /// Done: this many bytes were sent.
    Finished(usize),
    /// Give up with the system's error.
    GiveUp,
    /// Give up: the segments are larger than the system can be told.
    SegmentTooLarge,
}

/// The next step in sending a buffer in segments of `segment_size` bytes: `last` is how the last
/// attempt ended, if there was one. An attempt that would have blocked is made again.
pub open spec fn gso_step(segment_size: usize, last: Option<GsoAttempt>) -> GsoStep {
    if segment_size > u16::MAX {
        GsoStep::SegmentTooLarge
    } else {
        match last {
            None | Some(GsoAttempt::WouldBlock) => GsoStep::Attempt(segment_size as u16),
            Some(GsoAttempt::Sent(n)) => GsoStep::Finished(n),
            Some(GsoAttempt::Refused) => GsoStep::GiveUp,
        }
    }
}

/// The next step in sending a buffer in segments of `segment_size` bytes: `last` is how the last
/// attempt ended, if there was one. An attempt that would have blocked is made again.
pub fn send_udp_gso(segment_size: usize, last: Option<GsoAttempt>) -> (r: GsoStep)
    ensures
        r == gso_step(segment_size, last),
{
    if segment_size > 0xffff {
        return GsoStep::SegmentTooLarge;
    }
    match last {
        None => GsoStep::Attempt(segment_size as u16),
        Some(GsoAttempt::WouldBlock) => GsoStep::Attempt(segment_size as u16),
        Some(GsoAttempt::Sent(n)) => GsoStep::Finished(n),
        Some(GsoAttempt::Refused) => GsoStep::GiveUp,
    }
}

/// Whether an address is one of IPv4.
pub open spec fn is_v4(addr: SocketAddress) -> bool {
    addr is V4
}

/// The port of an address.
pub open spec fn port_of(addr: SocketAddress) -> u16 {
    match addr {
        SocketAddress::V4 { port, .. } => port,
        SocketAddress::V6 { port, .. } => port,
    }
}

/// A socket can reach the server: unless an address to bind to was asked for, it is bound to one of
/// the server's family, on any interface and any port, whatever the server's own address is. One that
/// was asked for is used as it is.
pub proof fn law_socket_reaches_the_server(
    bind: Option<SocketAddress>,
    endpoint: SocketAddress,
    other: SocketAddress,
)
    ensures
        bind matches Some(addr) ==> bound_for(bind, endpoint) == addr,
        bind is None ==> {
            &&& is_v4(bound_for(bind, endpoint)) == is_v4(endpoint)
            &&& port_of(bound_for(bind, endpoint)) == 0
            &&& bound_for(bind, endpoint) matches SocketAddress::V4 { ip, .. } ==> ip == 0
            &&& bound_for(bind, endpoint) matches SocketAddress::V6 { ip, flowinfo, scope_id, .. }
                ==> ip == 0 && flowinfo == 0 && scope_id == 0
            &&& is_v4(endpoint) == is_v4(other) ==> bound_for(bind, endpoint) == bound_for(
                bind,
                other,
            )
        },
{
}

/// Each buffer that is smaller than 4 MiB is warned of, with its size, and no other; the receiving one
/// first.
pub proof fn law_short_buffers_are_warned_of(recv: usize, send: usize)
    ensures
        ({
            let warnings = short_buffers(recv, send);
            &&& forall|i: int|
                0 <= i < warnings.len() ==> match #[trigger] warnings[i] {
                    ShortBuffer::Receive { actual } => actual == recv && recv < 4_194_304 && i == 0,
                    ShortBuffer::Send { actual } => actual == send && send < 4_194_304 && i
                        == warnings.len() - 1,
                }
            &&& recv < 4_194_304 ==> warnings.contains(ShortBuffer::Receive { actual: recv })
            &&& send < 4_194_304 ==> warnings.contains(ShortBuffer::Send { actual: send })
            &&& warnings.len() <= 2
        }),
{
    let warnings = short_buffers(recv, send);
    if recv < 4_194_304 {
        assert(warnings[0] == ShortBuffer::Receive { actual: recv });
    }
    if send < 4_194_304 {
        assert(warnings[warnings.len() - 1] == ShortBuffer::Send { actual: send });
    }
}

/// Segmentation is turned on with the segment size itself, wherever the system can be told of it.
pub proof fn law_offload_is_told_the_segment_size(segment_size: usize)
    ensures
        gso_option(segment_size) matches Some(value) ==> value == segment_size,
        gso_option(segment_size) is None <==> segment_size > 2_147_483_647,
{
}

/// A segmented buffer is tried until the system takes or refuses it: a socket that was not ready is
/// tried again with the same segment size, what it took is what is reported, and only a refusal, or
/// segments of more than 65,535 bytes, make sending give up.
pub proof fn law_segmented_buffer_is_tried_again(segment_size: usize, last: Option<GsoAttempt>)
    ensures
        gso_step(segment_size, last) is SegmentTooLarge <==> segment_size > 65_535,
        gso_step(segment_size, last) matches GsoStep::Attempt(size) ==> size == segment_size && (last
            is None || last == Some(GsoAttempt::WouldBlock)),
        gso_step(segment_size, last) matches GsoStep::Finished(n) ==> last == Some(
            GsoAttempt::Sent(n),
        ),
        gso_step(segment_size, last) is GiveUp ==> last == Some(GsoAttempt::Refused),
        gso_step(segment_size, Some(GsoAttempt::WouldBlock)) == gso_step(segment_size, None),
{
}

} // verus!
