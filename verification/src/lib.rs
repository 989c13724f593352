//! A client for Cloudflare WARP over MASQUE: IP packets in HTTP/3 datagrams.
//!
//! This library holds what such a client computes and decides. Devices are registered and keys
//! enrolled in `register`, and what came of it is kept as a `config`. `tls` makes the key material
//! of a session and pins the server's key, over the calls in `keys` and `encoding`.
//!
//! The socket, the QUIC transport, HTTP/3 and the kernel's network device are outside. The library
//! meets them in state machines that are told what happened and say what to do next: `setup`
//! brings a session up; `packet_session` and `drive` make it a stream and a sink of packets;
//! `tunnel` keeps a tunnel going, from the key material of a session through its set-up to
//! `forward`, which moves its packets; they leave in the bursts of `burst`. How packets look inside
//! datagrams is in `datagram`, over `varint`.
//!
//! What holds of every run of these machines is stated by the functions named `law_..`, many of
//! them in modules of their own. What is kept over a whole run is in `session_laws`, `send_laws`,
//! `tunnel_laws`, `forward_laws` and `burst_laws`; how each event is answered, in terms of what
//! happened before it, in `setup_laws`, `drive_laws`, `stream_laws`, `tunnel_steps`,
//! `forward_steps` and `burst_steps`. What texts and messages tell is in `text_laws` and
//! `message_laws`, and what the service is asked and answers in `account_laws`.
pub mod account_laws;
pub mod burst;
pub mod burst_laws;
pub mod burst_steps;
pub mod clock;
pub mod config;
pub mod datagram;
pub mod drive;
pub mod drive_laws;
pub mod encoding;
pub mod forward;
pub mod forward_laws;
pub mod forward_steps;
pub mod keys;
pub mod message_laws;
pub mod net;
pub mod packet_session;
pub mod random;
pub mod register;
pub mod send_laws;
pub mod session_laws;
pub mod setup;
pub mod setup_laws;
pub mod status;
pub mod stream_laws;
pub mod text;
pub mod text_laws;
pub mod tls;
pub mod tunnel;
pub mod tunnel_laws;
pub mod tunnel_steps;
pub mod varint;
