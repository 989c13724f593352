//! What holds of the requests to the service, of its answers and of the configuration made of them.
use crate::config::{Config, ConfigError};
use crate::encoding::{base64_text, law_base64_injective};
use crate::register::{
    enrollment_answer, header_views, option_view, registration_answer, successful, AccountData,
    ApiError, EnrollmentRequest, Method, RegisterError, RegistrationRequest,
};
use crate::text::joined;
use vstd::prelude::*;

verus! {

/// An enrollment changes the device that a registration made: it goes to the address of the
/// registration, followed by the device's name at the service, as a change and with the token that
/// the service gave; the registration goes out without it.
pub proof fn law_enrollment_follows_registration(
    registration: RegistrationRequest,
    enrollment: EnrollmentRequest,
    model: Seq<char>,
    locale: Seq<char>,
    jwt: Option<Seq<char>>,
    key: Seq<char>,
    serial: Seq<char>,
    tos: Seq<char>,
    account: AccountData,
    pub_key_der: Seq<u8>,
    device_name: Option<Seq<char>>,
)
    requires
        registration.asks(model, locale, jwt, key, serial, tos),
        enrollment.asks(account.id@, account.token@, pub_key_der, device_name),
    ensures
        enrollment.request.url@ == registration.request.url@ + "/"@ + account.id@,
        registration.request.method == Method::Post,
        enrollment.request.method == Method::Patch,
        registration.request.headers@.len() == (if jwt is Some {
            1int
        } else {
            0
        }),
        jwt matches Some(token) ==> registration.request.headers@[0].1@ == token,
        enrollment.request.headers@.len() == 1,
        account.token@.is_suffix_of(enrollment.request.headers@[0].1@),
        enrollment.body.key_type@ != registration.body.key_type@,
        enrollment.body.tunnel_type@ != registration.body.tunnel_type@,
{
    reveal_strlit("/reg");
    reveal_strlit("/reg/");
    reveal_strlit("/");
    reveal_strlit("curve25519");
    reveal_strlit("secp256r1");
    reveal_strlit("wireguard");
    reveal_strlit("masque");
    reveal_strlit("Bearer ");
    assert("/reg/"@ =~= "/reg"@ + "/"@);
    assert(enrollment.request.url@ =~= registration.request.url@ + "/"@ + account.id@);
    let sent = header_views(registration.request.headers@);
    let changed = header_views(enrollment.request.headers@);
    assert(sent.len() == registration.request.headers@.len());
    assert(changed.len() == enrollment.request.headers@.len());
    if jwt is Some {
        assert(sent[0] == (registration.request.headers@[0].0@, registration.request.headers@[0].1@));
    }
    assert(changed[0] == (enrollment.request.headers@[0].0@, enrollment.request.headers@[0].1@));
    let bearer = enrollment.request.headers@[0].1@;
    assert(bearer.subrange(bearer.len() - account.token@.len(), bearer.len() as int)
        =~= account.token@);
    assert("curve25519"@.len() != "secp256r1"@.len());
    assert("wireguard"@.len() != "masque"@.len());
}

/// A registration tells its particulars as they were given, each in its own place, and leaves empty
/// what a device of this kind does not tell.
pub proof fn law_registration_tells_its_particulars(
    request: RegistrationRequest,
    model: Seq<char>,
    locale: Seq<char>,
    jwt: Option<Seq<char>>,
    key: Seq<char>,
    serial: Seq<char>,
    tos: Seq<char>,
)
    requires
        request.asks(model, locale, jwt, key, serial, tos),
    ensures
        (request.body.model@, request.body.locale@) == (model, locale),
        (request.body.key@, request.body.serial_number@, request.body.tos@) == (key, serial, tos),
        request.body.install_id@.len() == 0,
        request.body.fcm_token@.len() == 0,
        request.body.os_version@.len() == 0,
{
}

/// The key that is enrolled can be read from the request, and so can the device's name: requests with
/// different keys are different.
pub proof fn law_enrollment_tells_its_key(
    a: EnrollmentRequest,
    b: EnrollmentRequest,
    id: Seq<char>,
    token: Seq<char>,
    first: Seq<u8>,
    second: Seq<u8>,
    device_name: Option<Seq<char>>,
)
    requires
        a.asks(id, token, first, device_name),
        b.asks(id, token, second, device_name),
    ensures
        a.body.key@ == b.body.key@ <==> first == second,
        a.body.key@ == base64_text(first),
        option_view(a.body.name) == device_name,
{
    if a.body.key@ == b.body.key@ {
        law_base64_injective(first, second);
    }
}

/// The service's answers are judged by their status alone, alike for both requests: what begins with
/// a 2 is success. Every refusal quotes its status, and what the service said: the body of the answer,
/// or to an enrollment the reasons, where it gave them.
pub proof fn law_answers_are_judged_by_status(
    code: u16,
    status: String,
    body: String,
    api_error: Option<&ApiError>,
    r: Result<(), RegisterError>,
)
    requires
        enrollment_answer(code, status, body, api_error, r),
    ensures
        successful(code) <==> code / 100 == 2,
        registration_answer(code, status, body) is Ok <==> code / 100 == 2,
        r is Ok <==> code / 100 == 2,
        code / 100 != 2 ==> registration_answer(code, status, body) == Err::<(), RegisterError>(
            RegisterError::RegistrationRefused(status, body),
        ),
        code / 100 != 2 ==> {
            &&& r matches Err(RegisterError::EnrollmentRefused(told, reasons))
            &&& told == status
            &&& api_error is None ==> reasons@ == body@
            &&& api_error matches Some(e) ==> (e.errors@.len() == 1 ==> reasons@
                == e.errors@[0].message@)
            &&& api_error matches Some(e) ==> reasons@ == joined(
                Seq::new(e.errors@.len(), |i: int| e.errors@[i].message@),
                "; "@,
            )
        },
{
    if let Some(e) = api_error {
        assert(e.reasons() =~= Seq::new(e.errors@.len(), |i: int| e.errors@[i].message@));
    }
}

/// A configuration holds what the service said of the device and of its first server, and nothing of
/// the other servers: accounts that differ only in those, or in the account's own name, give the same.
pub proof fn law_first_server_counts(
    a: Config,
    b: Config,
    first: AccountData,
    second: AccountData,
    token: Seq<char>,
    priv_key_der: Seq<u8>,
)
    requires
        a.describes(first, token, priv_key_der),
        b.describes(second, token, priv_key_der),
        first.config.peers@[0] == second.config.peers@[0],
        first.id@ == second.id@,
        first.config.interface == second.config.interface,
        option_view(first.account.license) == option_view(second.account.license),
    ensures
        a.private_key@ == b.private_key@,
        a.endpoint_v4@ == b.endpoint_v4@,
        a.endpoint_v6@ == b.endpoint_v6@,
        a.endpoint_pub_key@ == b.endpoint_pub_key@,
        a.license@ == b.license@,
        a.id@ == b.id@,
        a.access_token@ == b.access_token@,
        a.ipv4@ == b.ipv4@,
        a.ipv6@ == b.ipv6@,
{
}

/// What a device needs to name itself is kept as the service gave it: its name at the service, the
/// token, its own addresses, the server's key and the license, which may be missing.
pub proof fn law_what_the_service_gave_is_kept(
    config: Config,
    account: AccountData,
    token: Seq<char>,
    priv_key_der: Seq<u8>,
)
    requires
        config.describes(account, token, priv_key_der),
    ensures
        (config.id@, config.access_token@) == (account.id@, token),
        (config.ipv4@, config.ipv6@) == (
            account.config.interface.addresses.v4@,
            account.config.interface.addresses.v6@,
        ),
        config.endpoint_pub_key@ == account.config.peers@[0].public_key@,
        account.account.license matches Some(license) ==> config.license@ == license@,
        account.account.license is None ==> config.license@.len() == 0,
        config.private_key@ == base64_text(priv_key_der),
{
}

/// The long form of a message about the configuration begins with the message, and ends with the cause
/// where there is one.
pub proof fn law_full_message_ends_with_the_cause(error: ConfigError)
    ensures
        error.text().is_prefix_of(error.full_text()),
        error is NoPeers ==> error.full_text() == error.text(),
        error matches ConfigError::PrivateKeyBase64(cause) ==> error.full_text() == error.text()
            + ": "@ + cause@,
        error matches ConfigError::EndpointKeyPem(cause) ==> error.full_text() == error.text()
            + ": "@ + cause@,
{
    let full = error.full_text();
    assert(full.subrange(0, error.text().len() as int) =~= error.text());
}

} // verus!
