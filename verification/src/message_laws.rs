//! What messages tell: the words that came from outside are in them, and different ends are told
//! apart.
use crate::burst::BurstError;
use crate::clock::Duration;
use crate::forward::TunnelStats;
use crate::packet_session::StreamError;
use crate::register::RegisterError;
use crate::setup::{Dialect, SetupError, Stage};
use crate::status::{bytes_text, seconds_text};
use crate::text::decimal;
use crate::tunnel::{Notice, SessionFailure, TunnelError};
use vstd::prelude::*;

verus! {

/// A text ends with what was put at its end.
proof fn lemma_ends(front: Seq<char>, end: Seq<char>)
    ensures
        end.is_suffix_of(front + end),
        front.is_prefix_of(front + end),
{
    let all = front + end;
    assert(all.subrange(all.len() - end.len(), all.len() as int) =~= end);
    assert(all.subrange(0, front.len() as int) =~= front);
}

/// Why sending a burst failed is told with the outside words at the end, and the two ways of sending
/// are told apart.
pub proof fn law_burst_error_ends_with_its_cause(error: BurstError)
    ensures
        error matches BurstError::Quic(cause) ==> cause@.is_suffix_of(error.text()),
        error matches BurstError::Segmented(cause) ==> cause@.is_suffix_of(error.text()),
        error matches BurstError::Plain(cause) ==> cause@.is_suffix_of(error.text()),
        error matches BurstError::Segmented(cause) ==> error.text() != BurstError::Plain(cause).text(),
{
    reveal_strlit("UDP GSO send failed: ");
    reveal_strlit("UDP send failed: ");
    match error {
        BurstError::Quic(cause) => lemma_ends("quic send error: "@, cause@),
        BurstError::Segmented(cause) => {
            lemma_ends("UDP GSO send failed: "@, cause@);
            assert(error.text().len() == BurstError::Plain(cause).text().len() + 4);
        },
        BurstError::Plain(cause) => lemma_ends("UDP send failed: "@, cause@),
        BurstError::DestinationChanged => {},
    }
}

/// Why a tunnel or a session of it ended is told with the outside words at the end; what the socket
/// said, and why a burst failed, is told as it is.
pub proof fn law_tunnel_error_ends_with_its_cause(error: TunnelError)
    ensures
        error matches TunnelError::IdleRead(cause) ==> cause@.is_suffix_of(error.text()),
        error matches TunnelError::Read(cause) ==> cause@.is_suffix_of(error.text()),
        error matches TunnelError::Write(cause) ==> cause@.is_suffix_of(error.text()),
        error matches TunnelError::Keepalive(cause) ==> cause@.is_suffix_of(error.text()),
        error matches TunnelError::Udp(cause) ==> error.text() == cause@,
        error matches TunnelError::Burst(cause) ==> error.text() == cause.text(),
{
    match error {
        TunnelError::IdleRead(cause) => lemma_ends(
            "failed to read TUN device while idle: "@,
            cause@,
        ),
        TunnelError::Read(cause) => lemma_ends("failed to read packet batch from TUN: "@, cause@),
        TunnelError::Write(cause) => lemma_ends("failed to write packet batch to TUN: "@, cause@),
        TunnelError::Keepalive(cause) => lemma_ends("failed to schedule QUIC keepalive: "@, cause@),
        _ => {},
    }
}

/// Why a stream failed is told with the outside words: at the end, or as they are; a packet for a wrong
/// address is told of with both addresses.
pub proof fn law_stream_error_holds_its_cause(error: StreamError)
    ensures
        error matches StreamError::Terminal(cause) ==> error.text() == cause@,
        error matches StreamError::Quic(cause) ==> error.text() == cause@,
        error matches StreamError::Socket(cause) ==> error.text() == cause@,
        error matches StreamError::H3Poll(cause) ==> cause@.is_suffix_of(error.text()),
        error matches StreamError::UnexpectedTarget { to, expected } ==> error.text().len() > to@.len()
            + expected@.len() && (expected@ + ")"@).is_suffix_of(error.text()),
{
    reveal_strlit(")");
    match error {
        StreamError::H3Poll(cause) => lemma_ends("h3 poll error: "@, cause@),
        StreamError::UnexpectedTarget { to, expected } => {
            let front = "unexpected QUIC send target "@ + to@ + " (expected "@;
            lemma_ends(front, expected@ + ")"@);
            assert(error.text() =~= front + (expected@ + ")"@));
        },
        _ => {},
    }
}

/// Why a set-up failed is told with the outside words at the end. A tunnel tells what the socket said as
/// it is; a packet stream does so while it opens and sends its request, and for what HTTP/3 said before
/// that.
pub proof fn law_setup_error_ends_with_its_cause(error: SetupError, dialect: Dialect)
    ensures
        error matches SetupError::Quic(_, cause) ==> error.cause() == cause@,
        error matches SetupError::Socket(_, cause) ==> error.cause() == cause@,
        error matches SetupError::Receive(_, cause) ==> error.cause() == cause@,
        error matches SetupError::H3Config(cause) ==> error.cause() == cause@,
        error matches SetupError::H3Connection(cause) ==> error.cause() == cause@,
        error matches SetupError::Request(cause) ==> error.cause() == cause@,
        error matches SetupError::H3Poll(cause) ==> error.cause() == cause@,
        error matches SetupError::Rejected(status) ==> error.cause() == status@,
        error is Rng || error is Closed || error is NoCertificate || error is KeyMismatch || error
            is TimedOut ==> error.cause().len() == 0 && error.lead(dialect).len() > 0 && error.lead(
            Dialect::Tunnel,
        ) == error.lead(Dialect::PacketStream),
        dialect == Dialect::Tunnel && (error is Socket || error is Receive) ==> error.lead(
            dialect,
        ).len() == 0,
        dialect == Dialect::Tunnel && (error is Quic || error is H3Config || error is H3Connection
            || error is Request) ==> error.lead(dialect).len() > 0,
        dialect == Dialect::PacketStream && (error is H3Config || error is H3Connection || error
            is Request) ==> error.lead(dialect).len() == 0,
        dialect == Dialect::PacketStream ==> (error matches SetupError::Quic(stage, _) ==> (
        error.lead(dialect).len() == 0 <==> stage == Stage::Opening || stage == Stage::Request)),
        dialect == Dialect::PacketStream ==> (error matches SetupError::Socket(stage, _) ==> (
        error.lead(dialect).len() == 0 <==> stage == Stage::Opening || stage == Stage::Request)),
        error is H3Poll || error is Rejected ==> error.lead(dialect).len() > 0,
{
    reveal_strlit("");
    reveal_strlit("RNG failure");
    reveal_strlit("initial send: ");
    reveal_strlit("send during handshake failed: ");
    reveal_strlit("send during handshake: ");
    reveal_strlit("send after CONNECT: ");
    reveal_strlit("send during CONNECT wait failed: ");
    reveal_strlit("send during CONNECT wait: ");
    reveal_strlit("connection closed before CONNECT response");
    reveal_strlit("connection closed during handshake");
    reveal_strlit("peer did not provide a certificate");
    reveal_strlit("peer certificate public key does not match pinned endpoint key");
    reveal_strlit("h3 config: ");
    reveal_strlit("h3 connection: ");
    reveal_strlit("send CONNECT request: ");
    reveal_strlit("h3 poll error: ");
    reveal_strlit("CONNECT rejected with status ");
    reveal_strlit("timed out waiting for CONNECT response");
}

/// Why a session ended before its time is told in the words of the error that ended it, as a tunnel
/// tells it. Only key material and the link have causes beyond that.
pub proof fn law_session_failure_is_told_as_it_is(failure: SessionFailure)
    ensures
        match failure {
            SessionFailure::Tls(error) => failure.text() == error.text() && failure.full_text()
                == error.full_text(),
            SessionFailure::Link { message, full_message } => failure.text() == message@
                && failure.full_text() == full_message@,
            SessionFailure::Setup(error) => failure.text() == error.lead(Dialect::Tunnel)
                + error.cause() && failure.full_text() == failure.text(),
            SessionFailure::Forward(error) => failure.text() == error.text() && failure.full_text()
                == failure.text(),
        },
{
}

/// A refusal is told with the status and then with what the service said, at the end.
pub proof fn law_refusal_is_told_with_its_reasons(error: RegisterError)
    ensures
        error matches RegisterError::RegistrationRefused(status, body) ==> (status@ + " - "@
            + body@).is_suffix_of(error.text()),
        error matches RegisterError::EnrollmentRefused(status, reasons) ==> (status@ + " - "@
            + reasons@).is_suffix_of(error.text()),
{
    match error {
        RegisterError::RegistrationRefused(status, body) => {
            let end = status@ + " - "@ + body@;
            lemma_ends("registration failed: "@, end);
            assert(error.text() =~= "registration failed: "@ + end);
        },
        RegisterError::EnrollmentRefused(status, reasons) => {
            let end = status@ + " - "@ + reasons@;
            lemma_ends("enrollment failed: "@, end);
            assert(error.text() =~= "enrollment failed: "@ + end);
        },
        _ => {},
    }
}

/// Every notice takes the place of the line before it, and tells what it is about: why a session failed
/// stands at its end.
pub proof fn law_notice_replaces_the_line(notice: Notice)
    ensures
        notice.line().len() > 6,
        notice.line()[0] == '\r',
        notice.line()[5] == '[',
        notice matches Notice::Failed(reason) ==> reason@.is_suffix_of(notice.line()),
        notice matches Notice::Connecting(endpoint) ==> (endpoint@ + " ..."@).is_suffix_of(
            notice.line(),
        ),
{
    reveal_strlit("\r\x1b[2K[idle] Waiting for traffic...");
    reveal_strlit("\r\x1b[2K[connecting] ");
    reveal_strlit("\r\x1b[2K[connected] MASQUE tunnel established");
    reveal_strlit("\r\x1b[2K[disconnected] Session ended");
    reveal_strlit("\r\x1b[2K[error] ");
    match notice {
        Notice::Failed(reason) => lemma_ends("\r\x1b[2K[error] "@, reason@),
        Notice::Connecting(endpoint) => {
            lemma_ends("\r\x1b[2K[connecting] "@, endpoint@ + " ..."@);
            assert(notice.line() =~= "\r\x1b[2K[connecting] "@ + (endpoint@ + " ..."@));
        },
        _ => {},
    }
}

/// The line that shows how a session is doing begins with how long it has lasted and what was sent, and
/// ends with what was received and what was lost, by the session and by the transport: every counter
/// is shown, each once.
pub proof fn law_line_shows_every_counter(
    stats: TunnelStats,
    elapsed: Duration,
    lost: nat,
    retrans: nat,
)
    ensures
        ({
            let line = stats.line(elapsed, lost, retrans);
            let front = "\r\x1b[2K[connected "@ + seconds_text(elapsed@ / 1_000_000_000)
                + "] tx: "@ + decimal(stats.tx_packets as nat) + " ("@ + bytes_text(
                stats.tx_bytes as nat,
            );
            let end = decimal(stats.rx_packets as nat) + " ("@ + bytes_text(stats.rx_bytes as nat)
                + ")  drop: "@ + decimal(stats.dropped as nat) + "  lost: "@ + decimal(lost)
                + "  retrans: "@ + decimal(retrans);
            &&& front.is_prefix_of(line)
            &&& end.is_suffix_of(line)
            &&& line.len() == front.len() + ")  rx: "@.len() + end.len()
        }),
{
    let line = stats.line(elapsed, lost, retrans);
    let front = "\r\x1b[2K[connected "@ + seconds_text(elapsed@ / 1_000_000_000) + "] tx: "@
        + decimal(stats.tx_packets as nat) + " ("@ + bytes_text(stats.tx_bytes as nat);
    let end = decimal(stats.rx_packets as nat) + " ("@ + bytes_text(stats.rx_bytes as nat)
        + ")  drop: "@ + decimal(stats.dropped as nat) + "  lost: "@ + decimal(lost) + "  retrans: "@
        + decimal(retrans);
    assert(line =~= front + (")  rx: "@ + end));
    lemma_ends(front, ")  rx: "@ + end);
    assert(line =~= (front + ")  rx: "@) + end);
    lemma_ends(front + ")  rx: "@, end);
}

} // verus!
