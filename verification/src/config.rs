//! The stored configuration of an enrolled device.
use crate::encoding::{
    base64_complaint, base64_decode, base64_encode, base64_fits, base64_text,
    law_base64_injective, pem_contents, pem_parse,
};
use crate::register::{option_view, AccountData};
use crate::text::{
    ends_with, law_trimmed_end, trim_end_matches, trim_start_matches, without_leading,
    without_suffixes,
};
use vstd::prelude::*;
use vstd::string::StringExecFns;

verus! {

/// Read and write for the owner, nothing for anybody else.
pub const OWNER_ONLY: u32 = 0o600;

/// Everything an enrolled device needs to connect.
#[derive(Clone)]
pub struct Config {
    pub private_key: String,
    pub endpoint_v4: String,
    pub endpoint_v6: String,
    pub endpoint_pub_key: String,
    pub license: String,
    pub id: String,
    pub access_token: String,
    pub ipv4: String,
    pub ipv6: String,
}

/// Why a configuration cannot be made or used.
#[derive(Debug)]
pub enum ConfigError {
    /// The account names no server.
    NoPeers,
    /// The private key is not Base64; with the decoder's words.
    PrivateKeyBase64(String),
    /// The server's public key is not PEM; with the parser's words.
    EndpointKeyPem(String),
}

impl ConfigError {
    /// The message as text.
    pub open spec fn text(self) -> Seq<char> {
        match self {
            ConfigError::NoPeers => "registration response contained no WARP peers"@,
            ConfigError::PrivateKeyBase64(_) => "failed to decode private key from base64"@,
            ConfigError::EndpointKeyPem(_) => "failed to parse endpoint public key PEM"@,
        }
    }

    /// The message for the user.
    pub fn message(&self) -> (r: String)
        ensures
            r@ == self.text(),
    {
        match self {
            ConfigError::NoPeers => "registration response contained no WARP peers".to_owned(),
            ConfigError::PrivateKeyBase64(_) => "failed to decode private key from base64".to_owned(),
            ConfigError::EndpointKeyPem(_) => "failed to parse endpoint public key PEM".to_owned(),
        }
    }

    /// The message with its cause, where it has one.
    pub open spec fn full_text(self) -> Seq<char> {
        match self {
            ConfigError::NoPeers => self.text(),
            ConfigError::PrivateKeyBase64(cause) => self.text() + ": "@ + cause@,
            ConfigError::EndpointKeyPem(cause) => self.text() + ": "@ + cause@,
        }
    }

    /// The message with its cause, where it has one.
    pub fn full_message(&self) -> (r: String)
        ensures
            r@ == self.full_text(),
    {
        let mut m = self.message();
        match self {
            ConfigError::NoPeers => {},
            ConfigError::PrivateKeyBase64(cause) => {
                m.append(": ");
                m.append(cause.as_str());
            },
            ConfigError::EndpointKeyPem(cause) => {
                m.append(": ");
                m.append(cause.as_str());
            },
        }
        m
    }
}

/// An IPv4 address as the service writes it, without the empty port.
pub open spec fn bare_v4(address: Seq<char>) -> Seq<char> {
    without_suffixes(address, ":0"@)
}

/// An IPv6 address as the service writes it, without brackets and the empty port.
pub open spec fn bare_v6(address: Seq<char>) -> Seq<char> {
    without_suffixes(without_suffixes(without_leading(address, '['), "]:0"@), ":0"@)
}

impl Config {
    /// This is the configuration for the first server of `account`, with this token and private
    /// key.
    pub open spec fn describes(
        self,
        account: AccountData,
        token: Seq<char>,
        priv_key_der: Seq<u8>,
    ) -> bool {
        let peer = account.config.peers@[0];
        &&& self.private_key@ == base64_text(priv_key_der)
        &&& self.endpoint_v4@ == bare_v4(peer.endpoint.v4@)
        &&& self.endpoint_v6@ == bare_v6(peer.endpoint.v6@)
        &&& self.endpoint_pub_key@ == peer.public_key@
        &&& self.license@ == match option_view(account.account.license) {
            Some(license) => license,
            None => Seq::empty(),
        }
        &&& self.id@ == account.id@
        &&& self.access_token@ == token
        &&& self.ipv4@ == account.config.interface.addresses.v4@
        &&& self.ipv6@ == account.config.interface.addresses.v6@
    }

    /// The configuration for the first server that the service named. It fails where the service
    /// named none.
    pub fn from_account_data(account: &AccountData, token: &str, priv_key_der: &[u8]) -> (r: Result<
        Config,
        ConfigError,
    >)
        requires
            base64_fits(priv_key_der@.len()),
        ensures
            match r {
                Ok(config) => account.config.peers@.len() > 0 && config.describes(
                    *account,
                    token@,
                    priv_key_der@,
                ),
                Err(e) => account.config.peers@.len() == 0 && e is NoPeers,
            },
    {
        if account.config.peers.len() == 0 {
            return Err(ConfigError::NoPeers);
        }
        let peer = &account.config.peers[0];
        let v4 = trim_end_matches(peer.endpoint.v4.as_str(), ":0");
        let v6 = trim_start_matches(peer.endpoint.v6.as_str(), '[');
        let v6 = trim_end_matches(v6, "]:0");
        let v6 = trim_end_matches(v6, ":0");
        Ok(
            Config {
                private_key: base64_encode(priv_key_der),
                endpoint_v4: v4.to_owned(),
                endpoint_v6: v6.to_owned(),
                endpoint_pub_key: peer.public_key.clone(),
                license: match &account.account.license {
                    Some(license) => license.clone(),
                    None => String::new(),
                },
                id: account.id.clone(),
                access_token: token.to_owned(),
                ipv4: account.config.interface.addresses.v4.clone(),
                ipv6: account.config.interface.addresses.v6.clone(),
            },
        )
    }

    /// The bytes whose Base64 text is stored as the private key, where it is the text of any.
    pub open spec fn stored_private_key(self) -> Option<Seq<u8>> {
        if exists|der: Seq<u8>| base64_text(der) == self.private_key@ {
            Some(choose|der: Seq<u8>| base64_text(der) == self.private_key@)
        } else {
            None
        }
    }

    /// The private key's DER document: the bytes whose Base64 text is stored.
    pub fn get_ec_private_key_der(&self) -> (r: Result<Vec<u8>, ConfigError>)
        ensures
            match self.stored_private_key() {
                Some(key) => r matches Ok(der) && der@ == key,
                None => r matches Err(ConfigError::PrivateKeyBase64(cause)) && cause@
                    == base64_complaint(self.private_key@),
            },
    {
        match base64_decode(self.private_key.as_str()) {
            Ok(der) => {
                proof {
                    let key = choose|key: Seq<u8>| base64_text(key) == self.private_key@;
                    assert(base64_text(der@) == self.private_key@);
                    law_base64_injective(der@, key);
                }
                Ok(der)
            },
            Err(cause) => Err(ConfigError::PrivateKeyBase64(cause)),
        }
    }

    /// The DER document of the server's public key: what the stored PEM text contains.
    pub fn get_endpoint_pub_key_der(&self) -> (r: Result<Vec<u8>, ConfigError>)
        ensures
            match pem_contents(self.endpoint_pub_key@) {
                Ok(contents) => r matches Ok(der) && der@ == contents,
                Err(text) => r matches Err(ConfigError::EndpointKeyPem(cause)) && cause@ == text,
            },
    {
        match pem_parse(self.endpoint_pub_key.as_str()) {
            Ok(der) => Ok(der),
            Err(cause) => Err(ConfigError::EndpointKeyPem(cause)),
        }
    }
}

/// A configuration gives back the private key it was made with.
pub proof fn law_private_key_round_trip(
    config: Config,
    account: AccountData,
    token: Seq<char>,
    priv_key_der: Seq<u8>,
)
    requires
        config.describes(account, token, priv_key_der),
    ensures
        config.stored_private_key() == Some(priv_key_der),
{
    assert(base64_text(priv_key_der) == config.private_key@);
    let key = choose|key: Seq<u8>| base64_text(key) == config.private_key@;
    law_base64_injective(key, priv_key_der);
}

/// The addresses in a configuration do not end in the empty port any more.
pub proof fn law_addresses_without_port(
    config: Config,
    account: AccountData,
    token: Seq<char>,
    priv_key_der: Seq<u8>,
)
    requires
        config.describes(account, token, priv_key_der),
    ensures
        !ends_with(config.endpoint_v4@, ":0"@),
        !ends_with(config.endpoint_v6@, ":0"@),
{
    reveal_strlit(":0");
    let peer = account.config.peers@[0];
    law_trimmed_end(peer.endpoint.v4@, ":0"@);
    law_trimmed_end(without_suffixes(without_leading(peer.endpoint.v6@, '['), "]:0"@), ":0"@);
}

/// A step in reading or writing the configuration file.
#[derive(Debug, Clone, Copy, PartialEq, Eq, Structural)]
pub enum FileStep {
    /// Look at the file's permissions.
    Inspect,
    /// Set the file's permissions to this mode.
    Secure(u32),
    /// Read the whole file.
    Read,
    /// Make the directories above the file.
    CreateParents,
    /// Open the file for writing, creating it with this mode where it is missing and leaving what
    /// it holds.
    Open(u32),
    /// Cut the file to nothing.
    Truncate,
    /// Write the new contents.
    Write,
}

impl FileStep {
    /// What is said when the step fails, where anything is.
    pub open spec fn complaint(self, path: Seq<char>) -> Option<Seq<char>> {
        match self {
            FileStep::Inspect => Some("failed to inspect config "@ + path),
            FileStep::Secure(_) => Some("failed to secure config permissions for "@ + path),
            FileStep::Read => Some("failed to read config from "@ + path),
            FileStep::CreateParents => None,
            FileStep::Open(_) => Some("failed to open config "@ + path),
            FileStep::Truncate => Some("failed to truncate config "@ + path),
            FileStep::Write => Some("failed to write config to "@ + path),
        }
    }

    /// What is said when the step fails, where anything is.
    pub fn failure_message(&self, path: &str) -> (r: Option<String>)
        ensures
            option_view(r) == self.complaint(path@),
    {
        let prefix = match self {
            FileStep::Inspect => "failed to inspect config ",
            FileStep::Secure(_) => "failed to secure config permissions for ",
            FileStep::Read => "failed to read config from ",
            FileStep::CreateParents => return None,
            FileStep::Open(_) => "failed to open config ",
            FileStep::Truncate => "failed to truncate config ",
            FileStep::Write => "failed to write config to ",
        };
        let mut m = prefix.to_owned();
        m.append(path);
        Some(m)
    }
}

/// Whether a file mode grants anything to the group or to others: whether any of its six lowest
/// bits is set.
pub fn grants_others(mode: u32) -> (r: bool)
    ensures
        r == (mode % 0o100 != 0),
{
    assert(mode & 0o077 == mode % 0o100) by (bit_vector);
    mode & 0o077 != 0
}

/// The steps that load a configuration whose file has this mode, after it was inspected: a file
/// that others may use is secured before it is read.
pub open spec fn load_plan(mode: u32) -> Seq<FileStep> {
    if mode % 0o100 != 0 {
        seq![FileStep::Secure(OWNER_ONLY), FileStep::Read]
    } else {
        seq![FileStep::Read]
    }
}

/// The steps that save a configuration: missing directories are made, and whatever file is there
/// is secured before anything is written.
pub open spec fn save_plan(in_directory: bool) -> Seq<FileStep> {
    (if in_directory {
        seq![FileStep::CreateParents]
    } else {
        Seq::empty()
    }) + seq![
        FileStep::Open(OWNER_ONLY),
        FileStep::Secure(OWNER_ONLY),
        FileStep::Truncate,
        FileStep::Write,
    ]
}

/// The steps that load a configuration whose file has this mode, after it was inspected.
pub fn load_steps(mode: u32) -> (r: Vec<FileStep>)
    ensures
        r@ == load_plan(mode),
{
    let mut steps: Vec<FileStep> = Vec::new();
    if grants_others(mode) {
        steps.push(FileStep::Secure(OWNER_ONLY));
    }
    steps.push(FileStep::Read);
    steps
}

/// The steps that save a configuration, where `parent` is the directory part of its path.
pub fn save_steps(parent: Option<&str>) -> (r: Vec<FileStep>)
    ensures
        r@ == save_plan(parent matches Some(p) && p@.len() > 0),
{
    let mut steps: Vec<FileStep> = Vec::new();
    if let Some(p) = parent {
        if !p.is_empty() {
            steps.push(FileStep::CreateParents);
        }
    }
    steps.push(FileStep::Open(OWNER_ONLY));
    steps.push(FileStep::Secure(OWNER_ONLY));
    steps.push(FileStep::Truncate);
    steps.push(FileStep::Write);
    steps
}

/// The mode of a file after these steps, where `mode` is what it was before, if there was one.
pub open spec fn mode_after(mode: Option<u32>, steps: Seq<FileStep>) -> Option<u32>
    decreases steps.len(),
{
    if steps.len() == 0 {
        mode
    } else {
        let before = mode_after(mode, steps.drop_last());
        match steps.last() {
            FileStep::Secure(set) => Some(set),
            FileStep::Open(fresh) => if before is None {
                Some(fresh)
            } else {
                before
            },
            _ => before,
        }
    }
}

/// A configuration that was loaded is nobody else's: its file grants nothing to the group or to
/// others, whatever it granted before. It is so already when the file is read.
pub proof fn law_load_secures(mode: u32)
    ensures
        load_plan(mode).last() == FileStep::Read,
        mode_after(Some(mode), load_plan(mode).drop_last()) matches Some(now) && now % 0o100 == 0,
        mode_after(Some(mode), load_plan(mode)) == mode_after(
            Some(mode),
            load_plan(mode).drop_last(),
        ),
{
    reveal_with_fuel(mode_after, 3);
    let steps = load_plan(mode);
    if mode % 0o100 != 0 {
        assert(steps.drop_last() =~= seq![FileStep::Secure(OWNER_ONLY)]);
    } else {
        assert(steps.drop_last() =~= Seq::empty());
    }
}

/// Secrets are written only where nobody else can read them: whether or not there was a file, and
/// whatever it granted, it is the owner's alone when the new contents are written, and stays so.
pub proof fn law_save_secures(mode: Option<u32>, in_directory: bool)
    ensures
        save_plan(in_directory).last() == FileStep::Write,
        !save_plan(in_directory).drop_last().contains(FileStep::Write),
        mode_after(mode, save_plan(in_directory).drop_last()) == Some(OWNER_ONLY),
        mode_after(mode, save_plan(in_directory)) == Some(OWNER_ONLY),
{
    reveal_with_fuel(mode_after, 3);
    let steps = save_plan(in_directory);
    let secured = steps.drop_last().drop_last();
    assert(secured.last() == FileStep::Secure(OWNER_ONLY));
    assert(steps.drop_last().last() == FileStep::Truncate);
}

/// What a file holds after these steps, where `bytes` is what it held before and `contents` is what
/// is written. Writing starts at the front.
pub open spec fn bytes_after(bytes: Seq<u8>, steps: Seq<FileStep>, contents: Seq<u8>) -> Seq<u8>
    decreases steps.len(),
{
    if steps.len() == 0 {
        bytes
    } else {
        let before = bytes_after(bytes, steps.drop_last(), contents);
        match steps.last() {
            FileStep::Truncate => Seq::empty(),
            FileStep::Write => if before.len() <= contents.len() {
                contents
            } else {
                contents + before.skip(contents.len() as int)
            },
            _ => before,
        }
    }
}

/// What is loaded is what was saved: after saving, the file holds the new contents and nothing of
/// the old ones; loading it then only reads, and leaves its contents and its mode as they are.
pub proof fn law_load_gives_what_was_saved(
    mode: Option<u32>,
    bytes: Seq<u8>,
    contents: Seq<u8>,
    in_directory: bool,
)
    ensures
        bytes_after(bytes, save_plan(in_directory), contents) == contents,
        mode_after(mode, save_plan(in_directory)) == Some(OWNER_ONLY),
        load_plan(OWNER_ONLY) == seq![FileStep::Read],
        bytes_after(contents, load_plan(OWNER_ONLY), contents) == contents,
        mode_after(Some(OWNER_ONLY), load_plan(OWNER_ONLY)) == Some(OWNER_ONLY),
{
    reveal_with_fuel(bytes_after, 3);
    reveal_with_fuel(mode_after, 3);
    law_save_secures(mode, in_directory);
    let steps = save_plan(in_directory);
    assert(steps.drop_last().last() == FileStep::Truncate);
    assert(bytes_after(bytes, steps.drop_last(), contents) =~= Seq::empty());
    assert(OWNER_ONLY % 0o100 == 0);
}

/// Loading changes no more than it must: a file that is the owner's alone is only read, and any other
/// becomes so, with nothing but read and write left.
pub proof fn law_load_changes_what_it_must(mode: u32)
    ensures
        mode % 0o100 == 0 ==> load_plan(mode) == seq![FileStep::Read] && mode_after(
            Some(mode),
            load_plan(mode),
        ) == Some(mode),
        mode % 0o100 != 0 ==> mode_after(Some(mode), load_plan(mode)) == Some(0o600u32),
        forall|i: int|
            0 <= i < load_plan(mode).len() ==> #[trigger] load_plan(mode)[i] is Secure
                || load_plan(mode)[i] is Read,
{
    reveal_with_fuel(mode_after, 3);
    let steps = load_plan(mode);
    if mode % 0o100 != 0 {
        assert(steps.drop_last() =~= seq![FileStep::Secure(OWNER_ONLY)]);
    } else {
        assert(steps.drop_last() =~= Seq::empty());
    }
}

/// Saving makes the directories above the file first, where there are any to make, and never makes a
/// file that others may use, not even for a moment: it is created with nothing but read and write for
/// its owner.
pub proof fn law_save_prepares_the_way(in_directory: bool, mode: Option<u32>)
    ensures
        save_plan(in_directory).contains(FileStep::CreateParents) <==> in_directory,
        in_directory ==> save_plan(in_directory)[0] == FileStep::CreateParents,
        save_plan(in_directory).contains(FileStep::Truncate),
        forall|i: int|
            0 <= i < save_plan(in_directory).len() ==> (match #[trigger] save_plan(in_directory)[i] {
                FileStep::Open(set) => set == 0o600,
                FileStep::Secure(set) => set == 0o600,
                _ => true,
            }),
        exists|i: int|
            0 <= i < save_plan(in_directory).len() && #[trigger] save_plan(in_directory)[i] is Open
                && (forall|k: int|
                0 <= k < i ==> #[trigger] save_plan(in_directory)[k] is CreateParents),
{
    let steps = save_plan(in_directory);
    if in_directory {
        assert(steps[0] == FileStep::CreateParents);
        assert(steps[1] is Open);
        assert(steps[3] == FileStep::Truncate);
    } else {
        assert(steps[0] is Open);
        assert(steps[2] == FileStep::Truncate);
    }
}

/// What is said of a step that failed ends with the path of the file, and of the making of directories
/// nothing is said.
pub proof fn law_complaint_names_the_file(step: FileStep, path: Seq<char>)
    ensures
        step.complaint(path) is None <==> step is CreateParents,
        step.complaint(path) matches Some(text) ==> path.is_suffix_of(text) && text.len()
            > path.len(),
{
    reveal_strlit("failed to inspect config ");
    reveal_strlit("failed to secure config permissions for ");
    reveal_strlit("failed to read config from ");
    reveal_strlit("failed to open config ");
    reveal_strlit("failed to truncate config ");
    reveal_strlit("failed to write config to ");
    if let Some(text) = step.complaint(path) {
        assert(text.subrange(text.len() - path.len(), text.len() as int) =~= path);
    }
}

} // verus!
