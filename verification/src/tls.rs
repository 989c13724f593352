//! The device's certificate, the pinned key of its server, and the transport settings.
use crate::clock::{utc_now, EARLIEST_UNIX_SECOND, LATEST_UNIX_SECOND};
use crate::config::{law_private_key_round_trip, Config, ConfigError};
use crate::encoding::{base64_complaint, base64_text, law_base64_injective, pem_contents};
use crate::keys::{
    certificate_spki, decode_pkcs8, decode_sec1, encode_pkcs8_pem, peer_spki,
    pkcs8_pem, pkcs8_scalar, sec1_scalar, self_signed_by, self_signed_certificate,
    CertificateFault, EARLIEST_CERTIFICATE_SECOND, LATEST_CERTIFICATE_SECOND, SCALAR_LEN,
};
use crate::register::AccountData;
use vstd::prelude::*;
use vstd::string::StringExecFns;

verus! {

/// How long the device's certificate is valid: a day, in seconds.
pub const CERTIFICATE_LIFETIME: i64 = 86_400;

/// What the transport needs to know of keys: the device's certificate and private key as PEM
/// texts, and the public key that its server must have.
pub struct TlsMaterial {
    pub cert_pem: String,
    pub key_pem: String,
    pub endpoint_pub_key_spki_der: Vec<u8>,
}

/// Why there is no usable key material.
#[derive(Debug)]
pub enum TlsError {
    /// The configuration is at fault.
    Config(ConfigError),
    /// The private key is neither PKCS#8 nor SEC1; with the words of both decoders.
    PrivateKey(String, String),
    /// The private key has no PEM text; with the reason.
    KeyPem(String),
    /// No certificate could be issued.
    Certificate(CertificateFault),
    /// The clock shows a time that certificates cannot express.
    Clock,
    /// The certificate file has a path that is no text.
    CertPath,
    /// The private key file has a path that is no text.
    KeyPath,
}

impl TlsError {
    /// The message as text.
    pub open spec fn text(self) -> Seq<char> {
        match self {
            TlsError::Config(e) => e.text(),
            TlsError::PrivateKey(pkcs8, sec1) =>
                "failed to parse ECDSA private key from config as PKCS#8 ("@ + pkcs8@
                + ") or SEC1 ("@ + sec1@ + ")"@,
            TlsError::KeyPem(_) => "failed to encode private key to PEM"@,
            TlsError::Certificate(CertificateFault::KeyPair(_)) =>
                "failed to load key pair into rcgen"@,
            TlsError::Certificate(CertificateFault::Params(_)) =>
                "failed to create certificate params"@,
            TlsError::Certificate(CertificateFault::Signing(_)) =>
                "failed to generate self-signed certificate"@,
            TlsError::Clock => "the clock is out of range"@,
            TlsError::CertPath => "temporary certificate path is not valid UTF-8"@,
            TlsError::KeyPath => "temporary private-key path is not valid UTF-8"@,
        }
    }

    /// The message for the user.
    pub fn message(&self) -> (r: String)
        ensures
            r@ == self.text(),
    {
        match self {
            TlsError::Config(e) => e.message(),
            TlsError::PrivateKey(pkcs8, sec1) => {
                let mut m = "failed to parse ECDSA private key from config as PKCS#8 (".to_owned();
                m.append(pkcs8.as_str());
                m.append(") or SEC1 (");
                m.append(sec1.as_str());
                m.append(")");
                m
            },
            TlsError::KeyPem(_) => "failed to encode private key to PEM".to_owned(),
            TlsError::Certificate(CertificateFault::KeyPair(_)) =>
                "failed to load key pair into rcgen".to_owned(),
            TlsError::Certificate(CertificateFault::Params(_)) =>
                "failed to create certificate params".to_owned(),
            TlsError::Certificate(CertificateFault::Signing(_)) =>
                "failed to generate self-signed certificate".to_owned(),
            TlsError::Clock => "the clock is out of range".to_owned(),
            TlsError::CertPath => "temporary certificate path is not valid UTF-8".to_owned(),
            TlsError::KeyPath => "temporary private-key path is not valid UTF-8".to_owned(),
        }
    }

    /// The message with its cause, where it has one.
    pub open spec fn full_text(self) -> Seq<char> {
        match self {
            TlsError::Config(e) => e.full_text(),
            TlsError::KeyPem(cause) => self.text() + ": "@ + cause@,
            TlsError::Certificate(CertificateFault::KeyPair(cause)) => self.text() + ": "@ + cause@,
            TlsError::Certificate(CertificateFault::Params(cause)) => self.text() + ": "@ + cause@,
            TlsError::Certificate(CertificateFault::Signing(cause)) => self.text() + ": "@ + cause@,
            _ => self.text(),
        }
    }

    /// The message with its cause, where it has one.
    pub fn full_message(&self) -> (r: String)
        ensures
            r@ == self.full_text(),
    {
        let cause = match self {
            TlsError::Config(e) => return e.full_message(),
            TlsError::KeyPem(cause) => cause,
            TlsError::Certificate(CertificateFault::KeyPair(cause)) => cause,
            TlsError::Certificate(CertificateFault::Params(cause)) => cause,
            TlsError::Certificate(CertificateFault::Signing(cause)) => cause,
            _ => return self.message(),
        };
        let mut m = self.message();
        m.append(": ");
        m.append(cause.as_str());
        m
    }
}

/// The scalar of a private key document: PKCS#8, or SEC1 where it is not that. Otherwise the words
/// of both decoders.
pub open spec fn private_scalar(der: Seq<u8>) -> Result<Seq<u8>, (Seq<char>, Seq<char>)> {
    match (pkcs8_scalar(der), sec1_scalar(der)) {
        (Ok(scalar), _) => Ok(scalar),
        (Err(_), Ok(scalar)) => Ok(scalar),
        (Err(pkcs8), Err(sec1)) => Err((pkcs8, sec1)),
    }
}

/// Reads a private key document of either form and returns the key's scalar. It fails exactly where
/// the document is of neither form.
pub fn parse_signing_key(priv_key_der: &[u8]) -> (r: Result<Vec<u8>, TlsError>)
    ensures
        match private_scalar(priv_key_der@) {
            Ok(scalar) => r matches Ok(s) && s@ == scalar && s@.len() == SCALAR_LEN && pkcs8_pem(
                scalar,
            ) is Ok,
            Err((pkcs8, sec1)) => r matches Err(TlsError::PrivateKey(p, s)) && p@ == pkcs8 && s@
                == sec1,
        },
        pkcs8_scalar(priv_key_der@) matches Ok(scalar) ==> (r matches Ok(s) && s@ == scalar),
        sec1_scalar(priv_key_der@) matches Ok(scalar) ==> (r matches Ok(s) && s@ == scalar),
        r is Err <==> pkcs8_scalar(priv_key_der@) is Err && sec1_scalar(priv_key_der@) is Err,
{
    match decode_pkcs8(priv_key_der) {
        Ok(scalar) => Ok(scalar),
        Err(pkcs8) => match decode_sec1(priv_key_der) {
            Ok(scalar) => Ok(scalar),
            Err(sec1) => Err(TlsError::PrivateKey(pkcs8, sec1)),
        },
    }
}

/// The PEM text of the private key in `config`, where there is one.
pub open spec fn config_key_pem(config: Config) -> Option<Seq<char>> {
    match config.stored_private_key() {
        Some(der) => match private_scalar(der) {
            Ok(scalar) => match pkcs8_pem(scalar) {
                Ok(text) => Some(text),
                Err(_) => None,
            },
            Err(_) => None,
        },
        None => None,
    }
}

/// The error says why the private key in `config` has no PEM text.
pub open spec fn config_key_fault(config: Config, e: TlsError) -> bool {
    match config.stored_private_key() {
        Some(der) => match private_scalar(der) {
            // A key that was read has a PEM text.
            Ok(_) => false,
            Err((pkcs8, sec1)) => e matches TlsError::PrivateKey(p, s) && p@ == pkcs8 && s@ == sec1,
        },
        None => e matches TlsError::Config(ConfigError::PrivateKeyBase64(t)) && t@
            == base64_complaint(config.private_key@),
    }
}

/// The PEM text of the private key in a configuration.
pub fn key_pem(config: &Config) -> (r: Result<String, TlsError>)
    ensures
        match r {
            Ok(text) => config_key_pem(*config) == Some(text@),
            Err(e) => config_key_pem(*config) is None && config_key_fault(*config, e),
        },
        r is Ok <==> has_private_key(*config),
{
    let der = match config.get_ec_private_key_der() {
        Ok(der) => der,
        Err(e) => return Err(TlsError::Config(e)),
    };
    let scalar = match parse_signing_key(der.as_slice()) {
        Ok(scalar) => scalar,
        Err(e) => return Err(e),
    };
    match encode_pkcs8_pem(scalar.as_slice()) {
        Ok(text) => Ok(text),
        Err(text) => Err(TlsError::KeyPem(text)),
    }
}

/// Whether certificates can express that one is issued at this time.
pub open spec fn certifiable(now: i64) -> bool {
    EARLIEST_CERTIFICATE_SECOND <= now && now + CERTIFICATE_LIFETIME <= LATEST_CERTIFICATE_SECOND
}

/// When a certificate issued at this time becomes and ceases to be valid, where certificates can
/// express it.
pub fn certificate_validity(now: i64) -> (r: Option<(i64, i64)>)
    ensures
        r == if certifiable(now) {
            Some((now, (now + CERTIFICATE_LIFETIME) as i64))
        } else {
            None
        },
        r matches Some((from, until)) ==> from == now && until == now + 86_400,
{
    if EARLIEST_CERTIFICATE_SECOND <= now && now <= LATEST_CERTIFICATE_SECOND
        - CERTIFICATE_LIFETIME {
        Some((now, now + CERTIFICATE_LIFETIME))
    } else {
        None
    }
}

/// Puts the parts together once the certificate is issued, or says why they are not complete.
pub fn tls_material(
    config: &Config,
    key_pem: String,
    certificate: Result<String, CertificateFault>,
) -> (r: Result<TlsMaterial, TlsError>)
    ensures
        match (certificate, pem_contents(config.endpoint_pub_key@)) {
            (Err(fault), _) => r == Err::<TlsMaterial, TlsError>(TlsError::Certificate(fault)),
            (Ok(_), Err(text)) => r matches Err(TlsError::Config(ConfigError::EndpointKeyPem(t)))
                && t@ == text,
            (Ok(cert), Ok(contents)) => r matches Ok(m) && m.cert_pem == cert && m.key_pem
                == key_pem && m.endpoint_pub_key_spki_der@ == contents,
        },
{
    let cert_pem = match certificate {
        Ok(text) => text,
        Err(fault) => return Err(TlsError::Certificate(fault)),
    };
    match config.get_endpoint_pub_key_der() {
        Ok(der) => Ok(TlsMaterial { cert_pem, key_pem, endpoint_pub_key_spki_der: der }),
        Err(e) => Err(TlsError::Config(e)),
    }
}

/// This is how making the key material for `config` may end at this time. The private key is read
/// first. The material is that key, a certificate for it that is valid for a day, and the pinned
/// key of the server. Of when issuing the certificate fails nothing is said.
pub open spec fn prepared_at(
    config: Config,
    now: i64,
    outcome: Result<TlsMaterial, TlsError>,
) -> bool {
    match config_key_pem(config) {
        None => outcome matches Err(e) && config_key_fault(config, e),
        Some(key) => if !certifiable(now) {
            outcome matches Err(e) && e is Clock
        } else {
            match outcome {
                Ok(m) => {
                    &&& m.key_pem@ == key
                    &&& self_signed_by(key, now as int, now + CERTIFICATE_LIFETIME, m.cert_pem@)
                    &&& pem_contents(config.endpoint_pub_key@) == Ok::<Seq<u8>, Seq<char>>(
                        m.endpoint_pub_key_spki_der@,
                    )
                },
                Err(TlsError::Certificate(_)) => true,
                Err(TlsError::Config(ConfigError::EndpointKeyPem(t))) => pem_contents(
                    config.endpoint_pub_key@,
                ) == Err::<Seq<u8>, Seq<char>>(t@),
                Err(_) => false,
            }
        },
    }
}

/// Makes the key material for a configuration at this time: reads the private key, issues a
/// certificate for it that is valid for a day, and reads the server's public key.
pub fn prepare_tls_material_at(config: &Config, now: i64) -> (r: Result<TlsMaterial, TlsError>)
    ensures
        prepared_at(*config, now, r),
        r matches Ok(m) ==> self_signed_by(m.key_pem@, now as int, now + 86_400, m.cert_pem@),
{
    let key_text = match key_pem(config) {
        Ok(text) => text,
        Err(e) => return Err(e),
    };
    let validity = match certificate_validity(now) {
        Some(validity) => validity,
        None => return Err(TlsError::Clock),
    };
    let certificate = self_signed_certificate(key_text.as_str(), validity.0, validity.1);
    tls_material(config, key_text, certificate)
}

/// Makes the key material for a configuration now.
pub fn prepare_tls_material(config: &Config) -> (r: Result<TlsMaterial, TlsError>)
    ensures
        exists|now: i64|
            EARLIEST_UNIX_SECOND <= now <= LATEST_UNIX_SECOND && #[trigger] prepared_at(
                *config,
                now,
                r,
            ) && (r matches Ok(m) ==> self_signed_by(
                m.key_pem@,
                now as int,
                now + 86_400,
                m.cert_pem@,
            )),
{
    let now = utc_now();
    prepare_tls_material_at(config, now.unix_seconds)
}

/// The certificate in the material made at a time is valid from that time on, for 86,400 seconds: so
/// it is valid when the material is used, and not for longer than a day. It is signed with the private
/// key in the material.
pub proof fn law_certificate_is_valid_from_now_on(config: Config, now: i64, material: TlsMaterial)
    requires
        prepared_at(config, now, Ok(material)),
    ensures
        self_signed_by(material.key_pem@, now as int, now + 86_400, material.cert_pem@),
{
}

/// The material is made of the configuration's own keys: its private key is the one whose document, in
/// either form, is stored as Base64, and its server key is what the stored PEM text contains.
pub proof fn law_material_holds_the_stored_keys(config: Config, now: i64, material: TlsMaterial)
    requires
        prepared_at(config, now, Ok(material)),
    ensures
        exists|der: Seq<u8>, scalar: Seq<u8>| #[trigger]
            base64_text(der) == config.private_key@ && (pkcs8_scalar(der) == Ok::<Seq<u8>, Seq<char>>(
                scalar,
            ) || (pkcs8_scalar(der) is Err && sec1_scalar(der) == Ok::<Seq<u8>, Seq<char>>(scalar)))
                && #[trigger] pkcs8_pem(scalar) == Ok::<Seq<char>, Seq<char>>(material.key_pem@),
        pem_contents(config.endpoint_pub_key@) == Ok::<Seq<u8>, Seq<char>>(
            material.endpoint_pub_key_spki_der@,
        ),
{
    let der = choose|der: Seq<u8>| base64_text(der) == config.private_key@;
    assert(base64_text(der) == config.private_key@);
    let scalar = private_scalar(der)->Ok_0;
    assert(pkcs8_pem(scalar) == Ok::<Seq<char>, Seq<char>>(material.key_pem@));
}

/// What is amiss is told in the words of whoever found it: the decoder of Base64, both readers of
/// private keys, and the reader of PEM.
pub proof fn law_faults_are_told_in_their_own_words(config: Config, now: i64, error: TlsError)
    requires
        prepared_at(config, now, Err(error)),
    ensures
        error matches TlsError::Config(ConfigError::PrivateKeyBase64(text)) ==> text@
            == base64_complaint(config.private_key@),
        error matches TlsError::PrivateKey(first, second) ==> exists|der: Seq<u8>| #[trigger]
            base64_text(der) == config.private_key@ && pkcs8_scalar(der) == Err::<Seq<u8>, Seq<char>>(
                first@,
            ) && sec1_scalar(der) == Err::<Seq<u8>, Seq<char>>(second@),
        error matches TlsError::Config(ConfigError::EndpointKeyPem(text)) ==> pem_contents(
            config.endpoint_pub_key@,
        ) == Err::<Seq<u8>, Seq<char>>(text@),
        !(error matches TlsError::Config(ConfigError::NoPeers)),
{
    if error is PrivateKey {
        let der = choose|der: Seq<u8>| base64_text(der) == config.private_key@;
        assert(base64_text(der) == config.private_key@);
    }
}

/// A certificate can be issued at every time from the year 0 on that is at least a day before the end
/// of the year 9999, and at no other.
pub proof fn law_certifiable_times(now: i64)
    ensures
        certifiable(now) <==> -62_167_219_200 <= now <= 253_402_300_799 - 86_400,
{
}

/// The long form of a message begins with the message, and goes on with the cause where there is one.
pub proof fn law_full_message_begins_with_the_message(error: TlsError)
    ensures
        error.text().is_prefix_of(error.full_text()),
        error matches TlsError::KeyPem(cause) ==> cause@.is_suffix_of(error.full_text()),
        error matches TlsError::Certificate(CertificateFault::KeyPair(cause))
            ==> cause@.is_suffix_of(error.full_text()),
        error matches TlsError::Certificate(CertificateFault::Params(cause)) ==> cause@.is_suffix_of(
            error.full_text(),
        ),
        error matches TlsError::Certificate(CertificateFault::Signing(cause))
            ==> cause@.is_suffix_of(error.full_text()),
        error matches TlsError::Config(ConfigError::PrivateKeyBase64(cause))
            ==> cause@.is_suffix_of(error.full_text()),
        error matches TlsError::Config(ConfigError::EndpointKeyPem(cause)) ==> cause@.is_suffix_of(
            error.full_text(),
        ),
{
    let full = error.full_text();
    assert(full.subrange(0, error.text().len() as int) =~= error.text());
    let cause = match error {
        TlsError::KeyPem(cause) => cause@,
        TlsError::Certificate(CertificateFault::KeyPair(cause)) => cause@,
        TlsError::Certificate(CertificateFault::Params(cause)) => cause@,
        TlsError::Certificate(CertificateFault::Signing(cause)) => cause@,
        TlsError::Config(ConfigError::PrivateKeyBase64(cause)) => cause@,
        TlsError::Config(ConfigError::EndpointKeyPem(cause)) => cause@,
        _ => Seq::empty(),
    };
    assert(full.subrange(full.len() - cause.len(), full.len() as int) =~= cause);
}

/// The outcome without the material.
pub open spec fn without_material(outcome: Result<TlsMaterial, TlsError>) -> Result<(), TlsError> {
    match outcome {
        Ok(_) => Ok(()),
        Err(e) => Err(e),
    }
}

/// Whether key material can be made from a configuration: the outcome of making it now.
pub fn validate_config(config: &Config) -> (r: Result<(), TlsError>)
    ensures
        exists|now: i64, outcome: Result<TlsMaterial, TlsError>|
            EARLIEST_UNIX_SECOND <= now <= LATEST_UNIX_SECOND && #[trigger] prepared_at(
                *config,
                now,
                outcome,
            ) && r == without_material(outcome),
{
    let outcome = prepare_tls_material(config);
    let ghost made = outcome;
    let r = match outcome {
        Ok(_) => Ok(()),
        Err(e) => Err(e),
    };
    assert(r == without_material(made));
    r
}

/// Only the two keys of a configuration matter for its key material: configurations with the same
/// private key and the same server key have the same outcomes, whatever else they hold.
pub proof fn law_only_keys_matter(
    a: Config,
    b: Config,
    now: i64,
    outcome: Result<TlsMaterial, TlsError>,
)
    requires
        a.private_key@ == b.private_key@,
        a.endpoint_pub_key@ == b.endpoint_pub_key@,
    ensures
        prepared_at(a, now, outcome) == prepared_at(b, now, outcome),
{
    if a.stored_private_key() is Some {
        let x = choose|der: Seq<u8>| base64_text(der) == a.private_key@;
        let y = choose|der: Seq<u8>| base64_text(der) == b.private_key@;
        assert(base64_text(x) == b.private_key@);
        law_base64_injective(x, y);
    }
}

/// The private key of a configuration is usable: it is the Base64 text of a PKCS#8 or SEC1 document
/// of a key.
pub open spec fn has_private_key(config: Config) -> bool {
    config.stored_private_key() matches Some(der) && private_scalar(der) is Ok
}

/// What is amiss with a configuration is found, and nothing else is blamed on it. Each error comes
/// exactly where its cause lies, the private key before the clock: a key that is not Base64, a
/// document that is no key, a time that certificates cannot express. With a usable key and such a
/// time, what is left is the issuing of the certificate and then the server's key.
pub proof fn law_each_fault_has_its_cause(
    config: Config,
    now: i64,
    outcome: Result<TlsMaterial, TlsError>,
)
    requires
        prepared_at(config, now, outcome),
    ensures
        outcome matches Err(TlsError::Config(ConfigError::PrivateKeyBase64(_))) <==>
            config.stored_private_key() is None,
        outcome matches Err(TlsError::PrivateKey(_, _)) <==> (config.stored_private_key() matches Some(
            der,
        ) && private_scalar(der) is Err),
        outcome matches Err(TlsError::Clock) <==> has_private_key(config) && !certifiable(now),
        outcome matches Err(TlsError::Config(ConfigError::EndpointKeyPem(_))) ==> has_private_key(
            config,
        ) && certifiable(now) && pem_contents(config.endpoint_pub_key@) is Err,
        outcome matches Err(TlsError::Certificate(_)) ==> has_private_key(config) && certifiable(
            now,
        ),
        outcome matches Err(e) ==> !(e is KeyPem) && !(e is CertPath) && !(e is KeyPath),
{
}

/// A configuration is valid exactly if both its keys are usable. Issuing the certificate draws
/// random numbers and may fail, and a clock may be out of range; with neither, there is material,
/// and validation succeeds, if and only if the private key is the Base64 text of a PKCS#8 or SEC1
/// document of a key and the server's key is PEM.
pub proof fn law_valid_iff_both_keys(
    config: Config,
    now: i64,
    outcome: Result<TlsMaterial, TlsError>,
)
    requires
        prepared_at(config, now, outcome),
        !(outcome matches Err(TlsError::Clock)),
        !(outcome matches Err(TlsError::Certificate(_))),
    ensures
        outcome is Ok <==> has_private_key(config) && pem_contents(config.endpoint_pub_key@) is Ok,
        without_material(outcome) is Ok <==> has_private_key(config) && pem_contents(
            config.endpoint_pub_key@,
        ) is Ok,
{
}

/// With both keys usable only the clock and the issuing of the certificate can stand in the way.
pub proof fn law_good_config_is_not_blamed(
    config: Config,
    now: i64,
    outcome: Result<TlsMaterial, TlsError>,
)
    requires
        prepared_at(config, now, outcome),
        has_private_key(config),
        pem_contents(config.endpoint_pub_key@) is Ok,
    ensures
        outcome matches Err(e) ==> e is Clock || e is Certificate,
        without_material(outcome) matches Err(e) ==> e is Clock || e is Certificate,
{
}

/// A private key is read from either form. A document that PKCS#8 reads gives that key; one that
/// only SEC1 reads gives that key; and there is an error exactly where neither does, with the words
/// of both.
pub proof fn law_private_key_from_either_form(der: Seq<u8>, scalar: Seq<u8>)
    ensures
        pkcs8_scalar(der) == Ok::<Seq<u8>, Seq<char>>(scalar) ==> private_scalar(der) == Ok::<
            Seq<u8>,
            (Seq<char>, Seq<char>),
        >(scalar),
        pkcs8_scalar(der) is Err && sec1_scalar(der) == Ok::<Seq<u8>, Seq<char>>(scalar)
            ==> private_scalar(der) == Ok::<Seq<u8>, (Seq<char>, Seq<char>)>(scalar),
        private_scalar(der) is Err <==> pkcs8_scalar(der) is Err && sec1_scalar(der) is Err,
        private_scalar(der) matches Err((a, b)) ==> pkcs8_scalar(der) == Err::<Seq<u8>, Seq<char>>(a)
            && sec1_scalar(der) == Err::<Seq<u8>, Seq<char>>(b),
{
}

/// Whether two byte strings are the same.
pub fn same_bytes(a: &[u8], b: &[u8]) -> (r: bool)
    ensures
        r == (a@ == b@),
{
    if a.len() != b.len() {
        return false;
    }
    let mut i: usize = 0;
    while i < a.len()
        invariant
            a@.len() == b@.len(),
            i <= a@.len(),
            forall|k: int| 0 <= k < i ==> a@[k] == b@[k],
        decreases a.len() - i,
    {
        if a[i] != b[i] {
            return false;
        }
        i = i + 1;
    }
    assert(a@ =~= b@);
    true
}

/// Whether the public key in a peer's certificate is the pinned one. A certificate that cannot be
/// read has no key.
pub fn verify_endpoint_key(peer_cert_der: &[u8], expected_spki_der: &[u8]) -> (r: bool)
    ensures
        r == (certificate_spki(peer_cert_der@) == Some(expected_spki_der@)),
{
    match peer_spki(peer_cert_der) {
        Some(spki) => same_bytes(spki.as_slice(), expected_spki_der),
        None => false,
    }
}

/// The key that a device was enrolled with is the key that it connects with: a configuration made
/// with a private key document gives back the scalar in it.
pub proof fn law_enrolled_key_is_used(
    config: Config,
    account: AccountData,
    token: Seq<char>,
    priv_key_der: Seq<u8>,
    scalar: Seq<u8>,
)
    requires
        config.describes(account, token, priv_key_der),
        pkcs8_scalar(priv_key_der) == Ok::<Seq<u8>, Seq<char>>(scalar),
    ensures
        config.stored_private_key() == Some(priv_key_der),
        private_scalar(priv_key_der) == Ok::<Seq<u8>, (Seq<char>, Seq<char>)>(scalar),
        pkcs8_pem(scalar) matches Ok(text) ==> config_key_pem(config) == Some(text),
{
    law_private_key_round_trip(config, account, token, priv_key_der);
}

/// The settings of the QUIC transport.
pub struct QuicSettings {
    /// Whether the transport checks the peer's certificate. It does not: the peer's key is pinned.
    pub verify_peer: bool,
    /// The application protocols to offer.
    pub application_protos: Vec<String>,
    /// The key exchange groups to offer.
    pub curves: String,
    pub cert_path: String,
    pub key_path: String,
    /// In milliseconds; none at all where it is 0.
    pub max_idle_timeout: u64,
    pub max_recv_udp_payload_size: usize,
    pub max_send_udp_payload_size: usize,
    pub initial_max_data: u64,
    pub initial_max_stream_data_bidi_local: u64,
    pub initial_max_stream_data_bidi_remote: u64,
    pub initial_max_stream_data_uni: u64,
    pub initial_max_streams_bidi: u64,
    pub initial_max_streams_uni: u64,
    pub disable_active_migration: bool,
    pub enable_dgram: bool,
    pub dgram_recv_queue_len: usize,
    pub dgram_send_queue_len: usize,
}

impl QuicSettings {
    /// The settings that every session uses, for these files and this size of datagram.
    pub open spec fn shared(
        self,
        cert_path: Seq<char>,
        key_path: Seq<char>,
        max_datagram_size: usize,
    ) -> bool {
        &&& !self.verify_peer
        &&& self.application_protos@.len() == 1
        &&& self.application_protos@[0]@ == "h3"@
        &&& self.curves@ == "X25519:P-256:P-384"@
        &&& self.cert_path@ == cert_path
        &&& self.key_path@ == key_path
        &&& self.max_idle_timeout == 0
        &&& self.max_recv_udp_payload_size == max_datagram_size
        &&& self.max_send_udp_payload_size == max_datagram_size
        &&& self.initial_max_data == 10_000_000
        &&& self.initial_max_stream_data_bidi_local == 1_000_000
        &&& self.initial_max_stream_data_bidi_remote == 1_000_000
        &&& self.initial_max_stream_data_uni == 1_000_000
        &&& self.initial_max_streams_bidi == 100
        &&& self.initial_max_streams_uni == 100
        &&& self.disable_active_migration
        &&& self.enable_dgram
        &&& self.dgram_recv_queue_len == 1000
        &&& self.dgram_send_queue_len == 1000
    }
}

/// What every session offers its server: HTTP/3 and nothing else, datagrams, no idle timeout of its
/// own, and the same limits for streams of either kind and either side.
pub proof fn law_sessions_are_alike(
    settings: QuicSettings,
    cert_path: Seq<char>,
    key_path: Seq<char>,
    max_datagram_size: usize,
)
    requires
        settings.shared(cert_path, key_path, max_datagram_size),
    ensures
        settings.max_recv_udp_payload_size == max_datagram_size,
        settings.max_send_udp_payload_size == settings.max_recv_udp_payload_size,
        settings.initial_max_data == 10 * settings.initial_max_stream_data_bidi_local,
        settings.initial_max_stream_data_bidi_local == 1_000_000,
        settings.initial_max_stream_data_bidi_remote == settings.initial_max_stream_data_bidi_local,
        settings.initial_max_stream_data_uni == settings.initial_max_stream_data_bidi_local,
        settings.initial_max_streams_bidi == 100,
        settings.initial_max_streams_uni == settings.initial_max_streams_bidi,
        settings.dgram_send_queue_len == 1_000,
        settings.dgram_recv_queue_len == settings.dgram_send_queue_len,
        settings.enable_dgram,
        settings.disable_active_migration,
        !settings.verify_peer,
        settings.max_idle_timeout == 0,
        settings.cert_path@ == cert_path,
        settings.key_path@ == key_path,
{
}

/// The transport settings that the native tunnel and the packet stream share. The paths are those
/// of the certificate and private key files, where they are text.
pub fn build_quic_config(
    cert_path: Option<&str>,
    key_path: Option<&str>,
    max_datagram_size: usize,
) -> (r: Result<QuicSettings, TlsError>)
    ensures
        match (cert_path, key_path) {
            (None, _) => r matches Err(e) && e is CertPath,
            (Some(_), None) => r matches Err(e) && e is KeyPath,
            (Some(cert), Some(key)) => r matches Ok(s) && s.shared(cert@, key@, max_datagram_size),
        },
{
    let cert = match cert_path {
        Some(path) => path,
        None => return Err(TlsError::CertPath),
    };
    let key = match key_path {
        Some(path) => path,
        None => return Err(TlsError::KeyPath),
    };
    Ok(
        QuicSettings {
            verify_peer: false,
            application_protos: vec!["h3".to_owned()],
            curves: "X25519:P-256:P-384".to_owned(),
            cert_path: cert.to_owned(),
            key_path: key.to_owned(),
            max_idle_timeout: 0,
            max_recv_udp_payload_size: max_datagram_size,
            max_send_udp_payload_size: max_datagram_size,
            initial_max_data: 10_000_000,
            initial_max_stream_data_bidi_local: 1_000_000,
            initial_max_stream_data_bidi_remote: 1_000_000,
            initial_max_stream_data_uni: 1_000_000,
            initial_max_streams_bidi: 100,
            initial_max_streams_uni: 100,
            disable_active_migration: true,
            enable_dgram: true,
            dgram_recv_queue_len: 1000,
            dgram_send_queue_len: 1000,
        },
    )
}

} // verus!
