# usque

A client for Cloudflare WARP over MASQUE: it registers a device, enrolls its key, and carries IP
packets in the datagrams of an HTTP/3 connection, either between a program and the server (a stream
and a sink of packets) or between the kernel's network device and the server (a tunnel).

- `src/` is the library, verified with Verus. It holds the protocol's data, the texts, and the
  state machines that decide what a session does. Calls into other crates stand behind a few
  functions marked `external_body`, each with a comment that begins with "Trusted:".
- `tests/` run the library with those crates.
- `app/` is ordinary Rust around it: files, the web service, sockets, the QUIC transport and the
  network device. What is done to an IP packet as it enters or leaves a tunnel is given to it as an
  implementation of its trait `PacketRules`.
