[package]
name = "usque"
version = "0.1.0"
edition = "2021"
publish = false

[dependencies]
anyhow = "1"
base64 = "0.22"
bytes = "1"
datagram-socket = "*"
futures = "0.3"
log = "0.4"
nix = { version = "*", features = ["socket", "net", "uio"] }
octets = "0.3"
p256 = { version = "0.13", features = ["ecdsa", "pem", "pkcs8"] }
pem = "3"
quiche = "*"
rcgen = "0.14"
reqwest = { version = "0.13", default-features = false, features = ["json", "rustls-no-provider"] }
ring = "0.17"
rustls = { version = "0.23", default-features = false, features = ["ring", "std", "tls12"] }
serde = { version = "1", features = ["derive"] }
serde_json = "1"
socket2 = "*"
tempfile = "3"
time = "0.3"
tokio = { version = "1", features = ["net", "time", "macros", "rt-multi-thread", "io-util"] }
tun-rs = { version = "2", features = ["async"] }
webpki-roots = "1"
x509-cert = "*"
