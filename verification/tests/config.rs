use usque::config::{
    grants_others, load_steps, save_steps, Config, ConfigError, FileStep, OWNER_ONLY,
};
use usque::register::{
    Account, AccountData, Addresses, Endpoint, Interface, Peer, WarpConfig,
};

fn account_data(peers: Vec<Peer>) -> AccountData {
    AccountData {
        id: "device-id".to_string(),
        token: "registration-token".to_string(),
        account: Account { id: "account-id".to_string(), license: None },
        config: WarpConfig {
            peers,
            interface: Interface {
                addresses: Addresses {
                    v4: "172.16.0.2".to_string(),
                    v6: "2606:4700:110::2".to_string(),
                },
            },
        },
    }
}

fn peer(v4: &str, v6: &str) -> Peer {
    Peer {
        public_key: "public-key".to_string(),
        endpoint: Endpoint { v4: v4.to_string(), v6: v6.to_string() },
    }
}

fn stored(private_key: &str, endpoint_pub_key: &str) -> Config {
    Config {
        private_key: private_key.to_string(),
        endpoint_v4: String::new(),
        endpoint_v6: String::new(),
        endpoint_pub_key: endpoint_pub_key.to_string(),
        license: String::new(),
        id: String::new(),
        access_token: String::new(),
        ipv4: String::new(),
        ipv6: String::new(),
    }
}

#[test]
fn from_account_data_rejects_missing_peer() {
    let Err(error) = Config::from_account_data(&account_data(Vec::new()), "token", b"key") else {
        panic!("missing peer must be rejected");
    };
    assert!(
        error.message().contains("no WARP peers"),
        "unexpected error: {}",
        error.full_message()
    );
}

#[test]
fn from_account_data_accepts_peer() {
    let peer = Peer {
        public_key: "public-key".to_string(),
        endpoint: Endpoint {
            v4: "192.0.2.1:0".to_string(),
            v6: "[2001:db8::1]:0".to_string(),
        },
    };
    let cfg = Config::from_account_data(&account_data(vec![peer]), "token", b"key")
        .expect("valid account data");
    assert_eq!(cfg.endpoint_v4, "192.0.2.1");
    assert_eq!(cfg.endpoint_v6, "2001:db8::1");
}

#[test]
fn every_field_has_its_source() {
    let mut account = account_data(vec![peer("192.0.2.1:0", "[2001:db8::1]:0"), peer("x", "y")]);
    account.account.license = Some("license".to_string());
    let cfg = Config::from_account_data(&account, "token", b"key").expect("valid account data");
    assert_eq!(cfg.private_key, "a2V5");
    assert_eq!(cfg.endpoint_pub_key, "public-key");
    assert_eq!(cfg.license, "license");
    assert_eq!(cfg.id, "device-id");
    assert_eq!(cfg.access_token, "token");
    assert_eq!(cfg.ipv4, "172.16.0.2");
    assert_eq!(cfg.ipv6, "2606:4700:110::2");
    account.account.license = None;
    let cfg = Config::from_account_data(&account, "token", b"key").expect("valid account data");
    assert_eq!(cfg.license, "");
}

#[test]
fn only_empty_ports_and_brackets_go() {
    let cases = [
        ("192.0.2.1", "192.0.2.1", "2001:db8::1", "2001:db8::1"),
        ("192.0.2.1:80", "192.0.2.1:80", "[2001:db8::1]:80", "2001:db8::1]:80"),
        ("192.0.2.1:0:0", "192.0.2.1", "[[2001:db8::1]:0]:0", "2001:db8::1"),
        ("", "", "[]:0", ""),
    ];
    for (v4, bare_v4, v6, bare_v6) in cases {
        let cfg = Config::from_account_data(&account_data(vec![peer(v4, v6)]), "token", b"")
            .expect("valid account data");
        assert_eq!(cfg.endpoint_v4, bare_v4);
        assert_eq!(cfg.endpoint_v6, bare_v6);
        assert!(!cfg.endpoint_v4.ends_with(":0"));
        assert!(!cfg.endpoint_v6.ends_with(":0"));
    }
}

#[test]
fn private_key_comes_back() {
    let texts = [
        (&b""[..], ""),
        (b"f", "Zg=="),
        (b"fo", "Zm8="),
        (b"foo", "Zm9v"),
        (b"foob", "Zm9vYg=="),
        (&[0xfb, 0xef, 0xff, 0x00], "++//AA=="),
    ];
    for (key, text) in texts {
        let account = account_data(vec![peer("", "")]);
        let cfg = Config::from_account_data(&account, "token", key).expect("valid account data");
        assert_eq!(cfg.private_key, text);
        assert_eq!(cfg.get_ec_private_key_der().expect("Base64"), key);
    }
}

#[test]
fn private_key_must_be_canonical_base64() {
    for text in ["Zg", "Zg=", "Zh==", "Zm9v!", "Zm9v\n", "-_8=", "===="] {
        let error = stored(text, "").get_ec_private_key_der().unwrap_err();
        assert!(matches!(error, ConfigError::PrivateKeyBase64(_)));
        assert_eq!(error.message(), "failed to decode private key from base64");
        assert!(error.full_message().starts_with("failed to decode private key from base64: "));
    }
}

#[test]
fn endpoint_key_is_read_from_pem() {
    let pem = "-----BEGIN PUBLIC KEY-----\nZm9vYmFy\n-----END PUBLIC KEY-----\n";
    assert_eq!(stored("", pem).get_endpoint_pub_key_der().expect("PEM"), b"foobar");
    let error = stored("", "foobar").get_endpoint_pub_key_der().unwrap_err();
    assert!(matches!(error, ConfigError::EndpointKeyPem(_)));
    assert_eq!(error.message(), "failed to parse endpoint public key PEM");
    assert!(error.full_message().starts_with("failed to parse endpoint public key PEM: "));
}

#[test]
fn missing_peer_has_no_cause() {
    assert_eq!(
        ConfigError::NoPeers.full_message(),
        "registration response contained no WARP peers"
    );
}

#[test]
fn loading_secures_what_others_may_use() {
    assert_eq!(load_steps(0o100_600), vec![FileStep::Read]);
    assert_eq!(load_steps(0o100_700), vec![FileStep::Read]);
    for mode in [0o100_644, 0o100_640, 0o100_604, 0o100_601, 0o777] {
        assert!(grants_others(mode));
        assert_eq!(load_steps(mode), vec![FileStep::Secure(OWNER_ONLY), FileStep::Read]);
    }
}

#[test]
fn saving_secures_before_it_writes() {
    let writing = vec![
        FileStep::Open(0o600),
        FileStep::Secure(0o600),
        FileStep::Truncate,
        FileStep::Write,
    ];
    assert_eq!(save_steps(None), writing);
    assert_eq!(save_steps(Some("")), writing);
    let with_parents = save_steps(Some("/etc/warp"));
    assert_eq!(with_parents[0], FileStep::CreateParents);
    assert_eq!(with_parents[1..], writing[..]);
}

#[test]
fn file_steps_say_what_failed() {
    let cases = [
        (FileStep::Inspect, Some("failed to inspect config a.json")),
        (FileStep::Secure(0o600), Some("failed to secure config permissions for a.json")),
        (FileStep::Read, Some("failed to read config from a.json")),
        (FileStep::CreateParents, None),
        (FileStep::Open(0o600), Some("failed to open config a.json")),
        (FileStep::Truncate, Some("failed to truncate config a.json")),
        (FileStep::Write, Some("failed to write config to a.json")),
    ];
    for (step, text) in cases {
        assert_eq!(step.failure_message("a.json").as_deref(), text);
    }
}
