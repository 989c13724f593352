//! Registering a device with the WARP service and enrolling its key: what is sent, and what the
//! answers mean.
use crate::clock::{utc_now, UtcTime};
use crate::encoding::{base64_encode, base64_fits, base64_text};
use crate::keys::{
    encode_pkcs8, encode_spki, pkcs8_document, pkcs8_scalar, random_scalar, spki_document,
    SCALAR_LEN,
};
use crate::random::random_bytes;
use crate::text::{
    decimal, hex_lower, hex_text, joined, padded_integer, padded_signed_text, padded_text,
};
use vstd::prelude::*;
use vstd::string::StringExecFns;

verus! {

/// Where the service is reached, with the version of its interface.
pub const API_BASE: &'static str = "https://api.cloudflareclient.com/v0a4471";

/// A new device.
pub struct Registration {
    pub key: String,
    pub install_id: String,
    pub fcm_token: String,
    pub tos: String,
    pub model: String,
    pub serial_number: String,
    pub os_version: String,
    pub key_type: String,
    pub tunnel_type: String,
    pub locale: String,
}

/// A change to a device.
pub struct DeviceUpdate {
    pub key: String,
    pub key_type: String,
    pub tunnel_type: String,
    pub name: Option<String>,
}

/// What the service knows of a device.
#[derive(Debug, Clone)]
pub struct AccountData {
    pub id: String,
    pub token: String,
    pub account: Account,
    pub config: WarpConfig,
}

/// The account a device belongs to.
#[derive(Debug, Clone)]
pub struct Account {
    pub id: String,
    pub license: Option<String>,
}

/// How a device connects.
#[derive(Debug, Clone)]
pub struct WarpConfig {
    pub peers: Vec<Peer>,
    pub interface: Interface,
}

/// A server to connect to.
#[derive(Debug, Clone)]
pub struct Peer {
    pub public_key: String,
    pub endpoint: Endpoint,
}

/// The addresses of a server.
#[derive(Debug, Clone)]
pub struct Endpoint {
    pub v4: String,
    pub v6: String,
}

/// The device's own side of the tunnel.
#[derive(Debug, Clone)]
pub struct Interface {
    pub addresses: Addresses,
}

/// The addresses of the device inside the tunnel.
#[derive(Debug, Clone)]
pub struct Addresses {
    pub v4: String,
    pub v6: String,
}

/// The service's account of why it refused.
#[derive(Debug)]
pub struct ApiError {
    pub errors: Vec<ErrorInfo>,
}

/// One reason for a refusal.
#[derive(Debug)]
pub struct ErrorInfo {
    pub code: i64,
    pub message: String,
}

/// Why registering or enrolling failed.
#[derive(Debug)]
pub enum RegisterError {
    /// The system had no random bytes.
    Rng,
    /// The private key has no DER document; with the reason.
    PrivateKeyEncoding(String),
    /// The public key has no DER document; with the reason.
    PublicKeyEncoding(String),
    /// The service refused a registration: its status and what it sent.
    RegistrationRefused(String, String),
    /// The service refused an enrollment: its status and the reasons.
    EnrollmentRefused(String, String),
}

impl RegisterError {
    /// The message as text.
    pub open spec fn text(self) -> Seq<char> {
        match self {
            RegisterError::Rng => "RNG failure"@,
            RegisterError::PrivateKeyEncoding(_) => "failed to encode private key to DER"@,
            RegisterError::PublicKeyEncoding(_) => "failed to encode public key to DER"@,
            RegisterError::RegistrationRefused(status, body) => "registration failed: "@ + status@
                + " - "@ + body@,
            RegisterError::EnrollmentRefused(status, reasons) => "enrollment failed: "@ + status@
                + " - "@ + reasons@,
        }
    }

    /// The message for the user.
    pub fn message(&self) -> (r: String)
        ensures
            r@ == self.text(),
    {
        match self {
            RegisterError::Rng => "RNG failure".to_owned(),
            RegisterError::PrivateKeyEncoding(_) => "failed to encode private key to DER".to_owned(),
            RegisterError::PublicKeyEncoding(_) => "failed to encode public key to DER".to_owned(),
            RegisterError::RegistrationRefused(status, body) => {
                let mut m = "registration failed: ".to_owned();
                m.append(status.as_str());
                m.append(" - ");
                m.append(body.as_str());
                m
            },
            RegisterError::EnrollmentRefused(status, reasons) => {
                let mut m = "enrollment failed: ".to_owned();
                m.append(status.as_str());
                m.append(" - ");
                m.append(reasons.as_str());
                m
            },
        }
    }
}

/// How a request is made.
#[derive(Debug, Clone, Copy, PartialEq, Eq, Structural)]
pub enum Method {
    Post,
    Patch,
}

/// A request to the service, but for its body: the method, the address and the headers beyond
/// the client's own.
pub struct ApiRequest {
    pub method: Method,
    pub url: String,
    pub headers: Vec<(String, String)>,
}

/// The names and values of headers as text.
pub open spec fn header_views(headers: Seq<(String, String)>) -> Seq<(Seq<char>, Seq<char>)> {
    headers.map_values(|h: (String, String)| (h.0@, h.1@))
}

/// The text of an optional value.
pub open spec fn option_view(value: Option<String>) -> Option<Seq<char>> {
    match value {
        Some(text) => Some(text@),
        None => None,
    }
}

/// The text of an optional borrowed value.
pub open spec fn option_str_view(value: Option<&str>) -> Option<Seq<char>> {
    match value {
        Some(text) => Some(text@),
        None => None,
    }
}

/// The headers that every request to the service carries.
pub open spec fn client_header_texts() -> Seq<(Seq<char>, Seq<char>)> {
    seq![
        ("User-Agent"@, "WARP for Android"@),
        ("CF-Client-Version"@, "a-6.35-4471"@),
        ("Content-Type"@, "application/json; charset=UTF-8"@),
        ("Connection"@, "Keep-Alive"@),
    ]
}

/// The headers that every request to the service carries.
pub fn client_headers() -> (r: Vec<(String, String)>)
    ensures
        header_views(r@) == client_header_texts(),
{
    let r: Vec<(String, String)> = vec![
        ("User-Agent".to_owned(), "WARP for Android".to_owned()),
        ("CF-Client-Version".to_owned(), "a-6.35-4471".to_owned()),
        ("Content-Type".to_owned(), "application/json; charset=UTF-8".to_owned()),
        ("Connection".to_owned(), "Keep-Alive".to_owned()),
    ];
    assert(header_views(r@) =~= client_header_texts());
    r
}

/// The text a WireGuard public key is sent as.
pub fn wg_pubkey(key: &[u8]) -> (r: String)
    requires
        key@.len() == 32,
    ensures
        r@ == base64_text(key@),
{
    base64_encode(key)
}

/// A WireGuard public key drawn at random, as text.
pub fn random_wg_pubkey() -> (r: Result<String, RegisterError>)
    ensures
        match r {
            Ok(text) => exists|key: Seq<u8>| key.len() == 32 && text@ == #[trigger] base64_text(key),
            Err(e) => e is Rng,
        },
{
    match random_bytes(32) {
        Ok(key) => Ok(wg_pubkey(key.as_slice())),
        Err(_) => Err(RegisterError::Rng),
    }
}

/// The serial number made of eight bytes: a 64-bit number in sixteen hexadecimal digits.
pub fn android_serial(serial: &[u8]) -> (r: String)
    requires
        serial@.len() == 8,
    ensures
        r@ == hex_text(serial@),
        r@.len() == 16,
{
    hex_lower(serial)
}

/// A serial number drawn at random.
pub fn random_android_serial() -> (r: Result<String, RegisterError>)
    ensures
        match r {
            Ok(text) => exists|serial: Seq<u8>| serial.len() == 8 && text@ == #[trigger] hex_text(serial),
            Err(e) => e is Rng,
        },
{
    match random_bytes(8) {
        Ok(serial) => Ok(android_serial(serial.as_slice())),
        Err(_) => Err(RegisterError::Rng),
    }
}

/// A moment as the service writes it: date and time in UTC with milliseconds.
pub open spec fn cf_time(now: UtcTime) -> Seq<char> {
    padded_integer(now.year as int, 4) + "-"@ + padded_integer(now.month as int, 2) + "-"@
        + padded_integer(now.day as int, 2) + "T"@ + padded_integer(now.hour as int, 2) + ":"@
        + padded_integer(now.minute as int, 2) + ":"@ + padded_integer(now.second as int, 2) + "."@
        + padded_integer(now.millisecond as int, 3) + "+00:00"@
}

/// A moment as the service writes it.
pub fn cf_time_text(now: &UtcTime) -> (r: String)
    ensures
        r@ == cf_time(*now),
{
    let mut r = padded_signed_text(now.year, 4);
    r.append("-");
    r.append(padded_text(now.month as u64, 2).as_str());
    r.append("-");
    r.append(padded_text(now.day as u64, 2).as_str());
    r.append("T");
    r.append(padded_text(now.hour as u64, 2).as_str());
    r.append(":");
    r.append(padded_text(now.minute as u64, 2).as_str());
    r.append(":");
    r.append(padded_text(now.second as u64, 2).as_str());
    r.append(".");
    r.append(padded_text(now.millisecond as u64, 3).as_str());
    r.append("+00:00");
    r
}

/// The present moment as the service writes it.
pub fn cf_time_string() -> (r: String)
    ensures
        exists|now: UtcTime| now.in_range() && r@ == #[trigger] cf_time(now),
{
    let now = utc_now();
    cf_time_text(&now)
}

/// The request that registers a device, and its body.
pub struct RegistrationRequest {
    pub request: ApiRequest,
    pub body: Registration,
}

impl RegistrationRequest {
    /// The request asks for a device of this model and locale with the given key, serial number
    /// and moment of consent; an identity token goes into a header of its own.
    pub open spec fn asks(
        self,
        model: Seq<char>,
        locale: Seq<char>,
        jwt: Option<Seq<char>>,
        key: Seq<char>,
        serial: Seq<char>,
        tos: Seq<char>,
    ) -> bool {
        &&& self.request.method == Method::Post
        &&& self.request.url@ == API_BASE@ + "/reg"@
        &&& header_views(self.request.headers@) == match jwt {
            Some(token) => seq![("CF-Access-Jwt-Assertion"@, token)],
            None => Seq::empty(),
        }
        &&& self.body.key@ == key
        &&& self.body.install_id@ == Seq::<char>::empty()
        &&& self.body.fcm_token@ == Seq::<char>::empty()
        &&& self.body.tos@ == tos
        &&& self.body.model@ == model
        &&& self.body.serial_number@ == serial
        &&& self.body.os_version@ == Seq::<char>::empty()
        &&& self.body.key_type@ == "curve25519"@
        &&& self.body.tunnel_type@ == "wireguard"@
        &&& self.body.locale@ == locale
    }
}

/// The request that registers a device with this key, serial number and moment of consent.
pub fn registration_request(
    model: &str,
    locale: &str,
    jwt: Option<&str>,
    key: String,
    serial: String,
    tos: String,
) -> (r: RegistrationRequest)
    ensures
        r.asks(model@, locale@, option_str_view(jwt), key@, serial@, tos@),
{
    let mut url = API_BASE.to_owned();
    url.append("/reg");
    let mut headers: Vec<(String, String)> = Vec::new();
    if let Some(token) = jwt {
        headers.push(("CF-Access-Jwt-Assertion".to_owned(), token.to_owned()));
    }
    let r = RegistrationRequest {
        request: ApiRequest { method: Method::Post, url, headers },
        body: Registration {
            key,
            install_id: String::new(),
            fcm_token: String::new(),
            tos,
            model: model.to_owned(),
            serial_number: serial,
            os_version: String::new(),
            key_type: "curve25519".to_owned(),
            tunnel_type: "wireguard".to_owned(),
            locale: locale.to_owned(),
        },
    };
    proof {
        match jwt {
            Some(token) => {
                assert(header_views(r.request.headers@) =~= seq![
                    ("CF-Access-Jwt-Assertion"@, token@),
                ]);
            },
            None => {
                assert(header_views(r.request.headers@) =~= Seq::empty());
            },
        }
    }
    r
}

/// The request that registers a device, with a random key and serial number and with consent
/// given now.
pub fn register(model: &str, locale: &str, jwt: Option<&str>) -> (r: Result<
    RegistrationRequest,
    RegisterError,
>)
    ensures
        match r {
            Ok(q) => exists|key: Seq<u8>, serial: Seq<u8>, now: UtcTime|
                #![trigger base64_text(key), hex_text(serial), cf_time(now)]
                key.len() == 32 && serial.len() == 8 && now.in_range() && q.asks(
                    model@,
                    locale@,
                    option_str_view(jwt),
                    base64_text(key),
                    hex_text(serial),
                    cf_time(now),
                ),
            Err(e) => e is Rng,
        },
{
    let key = random_wg_pubkey()?;
    let serial = random_android_serial()?;
    let tos = cf_time_string();
    Ok(registration_request(model, locale, jwt, key, serial, tos))
}

/// An HTTP status code reports success.
pub open spec fn successful(code: u16) -> bool {
    200 <= code < 300
}

/// Whether an HTTP status code reports success.
pub fn is_success(code: u16) -> (r: bool)
    ensures
        r == successful(code),
{
    200 <= code && code < 300
}

/// Whether the answer to a registration is to be read: it is, on success. Otherwise the error
/// quotes the status and the body.
pub open spec fn registration_answer(code: u16, status: String, body: String) -> Result<
    (),
    RegisterError,
> {
    if successful(code) {
        Ok(())
    } else {
        Err(RegisterError::RegistrationRefused(status, body))
    }
}

/// Whether the answer to a registration is to be read, or the error that it is.
pub fn registration_outcome(code: u16, status: String, body: String) -> (r: Result<
    (),
    RegisterError,
>)
    ensures
        r == registration_answer(code, status, body),
{
    if is_success(code) {
        Ok(())
    } else {
        Err(RegisterError::RegistrationRefused(status, body))
    }
}

/// The DER documents of the key pair with this scalar: PKCS#8 for the private key,
/// SubjectPublicKeyInfo for the public one.
pub fn keypair_documents(scalar: &[u8]) -> (r: Result<(Vec<u8>, Vec<u8>), RegisterError>)
    ensures
        match (pkcs8_document(scalar@), spki_document(scalar@)) {
            (Ok(private), Ok(public)) => r matches Ok((a, b)) && a@ == private && b@ == public,
            (Err(text), _) => r matches Err(RegisterError::PrivateKeyEncoding(e)) && e@ == text,
            (Ok(_), Err(text)) => r matches Err(RegisterError::PublicKeyEncoding(e)) && e@ == text,
        },
        r matches Ok((a, _)) ==> (scalar@.len() == SCALAR_LEN ==> pkcs8_scalar(a@) == Ok::<
            Seq<u8>,
            Seq<char>,
        >(scalar@)),
{
    let private = match encode_pkcs8(scalar) {
        Ok(der) => der,
        Err(text) => return Err(RegisterError::PrivateKeyEncoding(text)),
    };
    let public = match encode_spki(scalar) {
        Ok(der) => der,
        Err(text) => return Err(RegisterError::PublicKeyEncoding(text)),
    };
    Ok((private, public))
}

/// A new key pair: the PKCS#8 document of a private key drawn at random, and the
/// SubjectPublicKeyInfo document of the public key that belongs to it. There always is one.
pub fn generate_ec_keypair() -> (r: Result<(Vec<u8>, Vec<u8>), RegisterError>)
    ensures
        r is Ok,
        exists|scalar: Seq<u8>|
            #![trigger pkcs8_document(scalar)]
            scalar.len() == SCALAR_LEN && (r matches Ok((private, public)) && pkcs8_document(scalar)
                == Ok::<Seq<u8>, Seq<char>>(private@) && spki_document(scalar) == Ok::<
                Seq<u8>,
                Seq<char>,
            >(public@) && pkcs8_scalar(private@) == Ok::<Seq<u8>, Seq<char>>(scalar)),
{
    let scalar = random_scalar();
    keypair_documents(scalar.as_slice())
}

/// The request that enrolls a key, and its body.
pub struct EnrollmentRequest {
    pub request: ApiRequest,
    pub body: DeviceUpdate,
}

impl EnrollmentRequest {
    /// The request asks that this device use the key, and names the device where a name is given.
    pub open spec fn asks(
        self,
        id: Seq<char>,
        token: Seq<char>,
        pub_key_der: Seq<u8>,
        device_name: Option<Seq<char>>,
    ) -> bool {
        &&& self.request.method == Method::Patch
        &&& self.request.url@ == API_BASE@ + "/reg/"@ + id
        &&& header_views(self.request.headers@) == seq![("Authorization"@, "Bearer "@ + token)]
        &&& self.body.key@ == base64_text(pub_key_der)
        &&& self.body.key_type@ == "secp256r1"@
        &&& self.body.tunnel_type@ == "masque"@
        &&& option_view(self.body.name) == device_name
    }
}

/// The request that enrolls a public key for a registered device.
pub fn enroll_key(account: &AccountData, pub_key_der: &[u8], device_name: Option<&str>) -> (r:
    EnrollmentRequest)
    requires
        base64_fits(pub_key_der@.len()),
    ensures
        r.asks(account.id@, account.token@, pub_key_der@, option_str_view(device_name)),
{
    let mut url = API_BASE.to_owned();
    url.append("/reg/");
    url.append(account.id.as_str());
    let mut bearer = "Bearer ".to_owned();
    bearer.append(account.token.as_str());
    let headers: Vec<(String, String)> = vec![("Authorization".to_owned(), bearer)];
    assert(header_views(headers@) =~= seq![("Authorization"@, "Bearer "@ + account.token@)]);
    EnrollmentRequest {
        request: ApiRequest { method: Method::Patch, url, headers },
        body: DeviceUpdate {
            key: base64_encode(pub_key_der),
            key_type: "secp256r1".to_owned(),
            tunnel_type: "masque".to_owned(),
            name: match device_name {
                Some(name) => Some(name.to_owned()),
                None => None,
            },
        },
    }
}

impl ApiError {
    /// The reasons in order.
    pub open spec fn reasons(self) -> Seq<Seq<char>> {
        self.errors@.map_values(|e: ErrorInfo| e.message@)
    }

    /// The reasons in one line.
    pub fn summary(&self) -> (r: String)
        ensures
            r@ == joined(self.reasons(), "; "@),
    {
        let mut r = String::new();
        let mut i: usize = 0;
        while i < self.errors.len()
            invariant
                i <= self.errors.len(),
                r@ == joined(self.reasons().take(i as int), "; "@),
            decreases self.errors.len() - i,
        {
            if i > 0 {
                r.append("; ");
            }
            r.append(self.errors[i].message.as_str());
            i = i + 1;
            proof {
                let done = self.reasons().take(i as int);
                assert(done.drop_last() =~= self.reasons().take(i - 1));
                assert(r@ =~= joined(done, "; "@));
            }
        }
        assert(self.reasons().take(i as int) =~= self.reasons());
        r
    }
}

/// This is what the answer to an enrollment means: it is to be read, on success. Otherwise the error
/// quotes the status and the reasons that the service gave, or the body where it gave none that
/// can be read.
pub open spec fn enrollment_answer(
    code: u16,
    status: String,
    body: String,
    api_error: Option<&ApiError>,
    r: Result<(), RegisterError>,
) -> bool {
    match r {
        Ok(_) => successful(code),
        Err(RegisterError::EnrollmentRefused(s, reasons)) => !successful(code) && s == status
            && reasons@ == match api_error {
            Some(e) => joined(e.reasons(), "; "@),
            None => body@,
        },
        Err(_) => false,
    }
}

/// Whether the answer to an enrollment is to be read, or the error that it is.
pub fn enrollment_outcome(
    code: u16,
    status: String,
    body: String,
    api_error: Option<&ApiError>,
) -> (r: Result<(), RegisterError>)
    ensures
        enrollment_answer(code, status, body, api_error, r),
{
    if is_success(code) {
        Ok(())
    } else {
        let reasons = match api_error {
            Some(e) => e.summary(),
            None => body,
        };
        Err(RegisterError::EnrollmentRefused(status, reasons))
    }
}

proof fn lemma_decimal_len(n: nat)
    ensures
        n < 10 ==> decimal(n).len() == 1,
        10 <= n < 100 ==> decimal(n).len() == 2,
        100 <= n < 1000 ==> decimal(n).len() == 3,
        1000 <= n < 10000 ==> decimal(n).len() == 4,
{
    reveal_with_fuel(decimal, 5);
}

/// A moment of the years 0 to 9999 is written in 29 characters, with the separators at fixed
/// places and the offset of UTC at the end.
pub proof fn law_timestamp_shape(now: UtcTime)
    requires
        now.in_range(),
        0 <= now.year,
    ensures
        cf_time(now).len() == 29,
        cf_time(now)[4] == '-',
        cf_time(now)[7] == '-',
        cf_time(now)[10] == 'T',
        cf_time(now)[13] == ':',
        cf_time(now)[16] == ':',
        cf_time(now)[19] == '.',
        cf_time(now).skip(23) == "+00:00"@,
{
    reveal_strlit("-");
    reveal_strlit("T");
    reveal_strlit(":");
    reveal_strlit(".");
    reveal_strlit("+00:00");
    lemma_decimal_len(now.year as nat);
    lemma_decimal_len(now.month as nat);
    lemma_decimal_len(now.day as nat);
    lemma_decimal_len(now.hour as nat);
    lemma_decimal_len(now.minute as nat);
    lemma_decimal_len(now.second as nat);
    lemma_decimal_len(now.millisecond as nat);
    assert(cf_time(now).skip(23) =~= "+00:00"@);
}

} // verus!
