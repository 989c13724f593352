use p256::pkcs8::{DecodePrivateKey, EncodePrivateKey, EncodePublicKey};
use usque::clock::UtcTime;
use usque::register::{
    android_serial, cf_time_string, cf_time_text, client_headers, enroll_key, enrollment_outcome,
    generate_ec_keypair, is_success, keypair_documents, random_android_serial, random_wg_pubkey,
    register, registration_outcome, registration_request, wg_pubkey, Account, AccountData,
    Addresses, ApiError, ErrorInfo, Interface, Method, RegisterError, WarpConfig,
};

fn account() -> AccountData {
    AccountData {
        id: "device-id".to_string(),
        token: "registration-token".to_string(),
        account: Account { id: "account-id".to_string(), license: None },
        config: WarpConfig {
            peers: Vec::new(),
            interface: Interface {
                addresses: Addresses { v4: String::new(), v6: String::new() },
            },
        },
    }
}

fn moment(year: i32, millisecond: u16) -> UtcTime {
    UtcTime {
        year,
        month: 2,
        day: 3,
        hour: 4,
        minute: 5,
        second: 6,
        millisecond,
        unix_seconds: 0,
    }
}

#[test]
fn cloudflare_timestamp_keeps_expected_shape() {
    let timestamp = cf_time_string();
    assert_eq!(timestamp.len(), 29);
    assert!(timestamp.ends_with("+00:00"));
    assert_eq!(&timestamp[4..5], "-");
    assert_eq!(&timestamp[7..8], "-");
    assert_eq!(&timestamp[10..11], "T");
    assert_eq!(&timestamp[13..14], ":");
    assert_eq!(&timestamp[16..17], ":");
    assert_eq!(&timestamp[19..20], ".");
}

#[test]
fn the_clock_is_read() {
    // Some moment after this was written and before the service is forgotten.
    let timestamp = cf_time_string();
    assert!(timestamp.as_str() > "2024-01-01" && timestamp.as_str() < "2200-01-01");
}

#[test]
fn timestamps_are_padded() {
    assert_eq!(cf_time_text(&moment(2024, 7)), "2024-02-03T04:05:06.007+00:00");
    assert_eq!(cf_time_text(&moment(33, 987)), "0033-02-03T04:05:06.987+00:00");
    assert_eq!(cf_time_text(&moment(-33, 0)), "-033-02-03T04:05:06.000+00:00");
}

#[test]
fn serial_numbers_are_hexadecimal() {
    assert_eq!(android_serial(&[0, 1, 0x2a, 0xff, 0, 0xc, 0xde, 0x10]), "00012aff000cde10");
    let bytes = [1, 2, 3, 4, 5, 6, 7, 0xf8];
    assert_eq!(android_serial(&bytes), format!("{:016x}", u64::from_be_bytes(bytes)));
    let first = random_android_serial().expect("random bytes");
    let second = random_android_serial().expect("random bytes");
    assert_eq!(first.len(), 16);
    assert!(first.chars().all(|c| c.is_ascii_digit() || ('a'..='f').contains(&c)));
    assert_ne!(first, second);
}

#[test]
fn wireguard_keys_are_base64() {
    assert_eq!(wg_pubkey(&[0u8; 32]), "AAAAAAAAAAAAAAAAAAAAAAAAAAAAAAAAAAAAAAAAAAA=");
    let first = random_wg_pubkey().expect("random bytes");
    let second = random_wg_pubkey().expect("random bytes");
    assert_eq!(first.len(), 44);
    assert!(first.ends_with('='));
    assert_ne!(first, second);
}

#[test]
fn every_request_carries_the_client_headers() {
    let headers = client_headers();
    let expected = [
        ("User-Agent", "WARP for Android"),
        ("CF-Client-Version", "a-6.35-4471"),
        ("Content-Type", "application/json; charset=UTF-8"),
        ("Connection", "Keep-Alive"),
    ];
    assert_eq!(headers.len(), expected.len());
    for (header, (name, value)) in headers.iter().zip(expected) {
        assert_eq!((header.0.as_str(), header.1.as_str()), (name, value));
    }
}

#[test]
fn registration_asks_for_a_device() {
    let q = registration_request(
        "PC",
        "en_US",
        Some("jwt"),
        "key".to_string(),
        "serial".to_string(),
        "now".to_string(),
    );
    assert_eq!(q.request.method, Method::Post);
    assert_eq!(q.request.url, "https://api.cloudflareclient.com/v0a4471/reg");
    assert_eq!(
        q.request.headers,
        vec![("CF-Access-Jwt-Assertion".to_string(), "jwt".to_string())]
    );
    assert_eq!(q.body.key, "key");
    assert_eq!(q.body.install_id, "");
    assert_eq!(q.body.fcm_token, "");
    assert_eq!(q.body.tos, "now");
    assert_eq!(q.body.model, "PC");
    assert_eq!(q.body.serial_number, "serial");
    assert_eq!(q.body.os_version, "");
    assert_eq!(q.body.key_type, "curve25519");
    assert_eq!(q.body.tunnel_type, "wireguard");
    assert_eq!(q.body.locale, "en_US");
}

#[test]
fn registration_draws_what_is_random() {
    let q = register("PC", "en_US", None).expect("random bytes");
    assert!(q.request.headers.is_empty());
    assert_eq!(q.body.key.len(), 44);
    assert_eq!(q.body.serial_number.len(), 16);
    assert_eq!(q.body.tos.len(), 29);
    assert_eq!(q.body.model, "PC");
}

#[test]
fn success_is_two_hundred_and_something() {
    assert!(is_success(200));
    assert!(is_success(299));
    assert!(!is_success(199));
    assert!(!is_success(300));
    assert!(!is_success(404));
}

#[test]
fn refused_registration_quotes_the_body() {
    assert!(registration_outcome(200, "200 OK".to_string(), "body".to_string()).is_ok());
    let error = registration_outcome(
        429,
        "429 Too Many Requests".to_string(),
        "slow down".to_string(),
    )
    .unwrap_err();
    assert_eq!(error.message(), "registration failed: 429 Too Many Requests - slow down");
}

#[test]
fn enrollment_names_key_and_device() {
    let q = enroll_key(&account(), b"foobar", Some("laptop"));
    assert_eq!(q.request.method, Method::Patch);
    assert_eq!(q.request.url, "https://api.cloudflareclient.com/v0a4471/reg/device-id");
    assert_eq!(
        q.request.headers,
        vec![("Authorization".to_string(), "Bearer registration-token".to_string())]
    );
    assert_eq!(q.body.key, "Zm9vYmFy");
    assert_eq!(q.body.key_type, "secp256r1");
    assert_eq!(q.body.tunnel_type, "masque");
    assert_eq!(q.body.name.as_deref(), Some("laptop"));
    assert_eq!(enroll_key(&account(), b"", None).body.name, None);
}

#[test]
fn refused_enrollment_gives_the_reasons() {
    let reasons = ApiError {
        errors: vec![
            ErrorInfo { code: 1, message: "first".to_string() },
            ErrorInfo { code: 2, message: "second".to_string() },
        ],
    };
    let status = || "400 Bad Request".to_string();
    assert!(enrollment_outcome(204, "204 No Content".to_string(), String::new(), None).is_ok());
    let error =
        enrollment_outcome(400, status(), "body".to_string(), Some(&reasons)).unwrap_err();
    assert_eq!(error.message(), "enrollment failed: 400 Bad Request - first; second");
    let error = enrollment_outcome(400, status(), "body".to_string(), None).unwrap_err();
    assert_eq!(error.message(), "enrollment failed: 400 Bad Request - body");
    let none = ApiError { errors: Vec::new() };
    let error = enrollment_outcome(400, status(), "body".to_string(), Some(&none)).unwrap_err();
    assert_eq!(error.message(), "enrollment failed: 400 Bad Request - ");
}

#[test]
fn key_pairs_are_der_documents() {
    let scalar = [7u8; 32];
    let (private, public) = keypair_documents(&scalar).expect("a key");
    let key = p256::SecretKey::from_slice(&scalar).expect("a key");
    assert_eq!(private, key.to_pkcs8_der().expect("DER").as_bytes());
    assert_eq!(public, key.public_key().to_public_key_der().expect("DER").as_bytes());
    let read = p256::SecretKey::from_pkcs8_der(&private).expect("PKCS#8");
    assert_eq!(read.to_bytes().as_slice(), &scalar);
}

#[test]
fn the_zero_scalar_is_no_key() {
    let error = keypair_documents(&[0u8; 32]).unwrap_err();
    assert!(matches!(error, RegisterError::PrivateKeyEncoding(_)));
    assert_eq!(error.message(), "failed to encode private key to DER");
    let public = RegisterError::PublicKeyEncoding("why".to_string());
    assert_eq!(public.message(), "failed to encode public key to DER");
    assert_eq!(RegisterError::Rng.message(), "RNG failure");
}

#[test]
fn generated_keys_belong_together() {
    let (private, public) = generate_ec_keypair().expect("a key pair");
    let key = p256::SecretKey::from_pkcs8_der(&private).expect("PKCS#8");
    assert_eq!(public, key.public_key().to_public_key_der().expect("SPKI").as_bytes());
    let (other, _) = generate_ec_keypair().expect("a key pair");
    assert_ne!(private, other);
}
