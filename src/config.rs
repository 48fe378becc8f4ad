//! Persisted configuration records and the checks on the redundancy
//! (WireGuard tunnel) settings.
use vstd::prelude::*;
use vstd::utf8::encode_utf8;

verus! {

/// Where the Icecast stream goes.
#[derive(Clone, Debug, PartialEq, Eq)]
pub struct AlasIcecastConfig {
    pub hostname: String,
    pub port: u16,
    pub mount: String,
    pub password: String,
}

#[derive(Clone, Debug, PartialEq, Eq)]
pub struct AlasCellularConfig {
    pub apn: String,
}

#[derive(Clone, Debug, PartialEq, Eq)]
pub struct AlasWiFiConfig {
    pub name: String,
    pub password: String,
}

#[derive(Clone, Debug, PartialEq, Eq)]
pub struct AlasAuthenticationConfig {
    pub password: Option<String>,
    pub jwt_secret: String,
}

#[derive(Clone, Debug, PartialEq, Eq)]
pub struct AlasDropboxConfig {
    pub pkce_verifier: String,
    pub access_token: Option<String>,
}

/// Settings of the redundancy tunnel.
#[derive(Clone, Debug, PartialEq, Eq)]
pub struct AlasRedundancyConfig {
    pub server_ip: String,
    pub port: u16,
    pub server_public_key: String,
    pub client_private_key: String,
}

/// Redundancy settings as the web interface sets them (no private key).
#[derive(Clone, Debug, PartialEq, Eq)]
pub struct RedundancyWebRequest {
    pub server_ip: String,
    pub port: u16,
    pub server_public_key: String,
}

/// Redundancy settings as the web interface shows them (no private key).
#[derive(Clone, Debug, PartialEq, Eq)]
pub struct RedundancyWebResponse {
    pub server_ip: String,
    pub port: u16,
    pub server_public_key: String,
    pub client_public_key: String,
}

/// Why redundancy settings were refused or could not be applied.
#[derive(Clone, Debug, PartialEq, Eq)]
pub enum RedundancyError {
    InvalidIpAddress(String),
    InvalidPort(u16),
    InvalidPublicKey(String),
    InvalidPrivateKey(String),
    WireGuardError(String),
    EngardeError(String),
    FileSystemError(String),
    YamlError(String),
    ServiceError(String),
    ConfigNotInitialized,
    ConfigIncomplete(String),
}

/// Length of a WireGuard key written in base64.
pub const KEY_LENGTH: usize = 44;

/// Whether `s` decodes as standard, padded base64.
pub uninterp spec fn is_standard_base64(s: Seq<char>) -> bool;

/// Relies on `base64::engine::general_purpose::STANDARD.decode`: whether the
/// text decodes, which depends on the text alone.
#[verifier::external_body]
fn decodes_as_base64(s: &str) -> (r: bool)
    ensures
        r == is_standard_base64(s@),
{
    base64::Engine::decode(&base64::engine::general_purpose::STANDARD, s).is_ok()
}

/// Which of the two keys is being checked.
#[derive(Clone, Copy, Debug, PartialEq, Eq, Structural)]
pub enum KeyRole {
    Public,
    Private,
}

/// The verdict on a key of `len` bytes that does or does not decode.
pub open spec fn key_verdict(role: KeyRole, len: nat, decodes: bool) -> Option<(KeyRole, bool)> {
    if len != KEY_LENGTH {
        Some((role, false))
    } else if !decodes {
        Some((role, true))
    } else {
        None
    }
}

/// Whether an error is the refusal of a key of this role, for its length
/// (`false`) or its encoding (`true`).
pub open spec fn is_key_error(e: RedundancyError, v: (KeyRole, bool)) -> bool {
    match v.0 {
        KeyRole::Public => e matches RedundancyError::InvalidPublicKey(m) && m@ == key_message(v),
        KeyRole::Private => e matches RedundancyError::InvalidPrivateKey(m) && m@ == key_message(v),
    }
}

/// The explanation that comes with a refused key.
pub open spec fn key_message(v: (KeyRole, bool)) -> Seq<char> {
    match v {
        (KeyRole::Public, false) => "Public key must be 44 characters"@,
        (KeyRole::Private, false) => "Private key must be 44 characters"@,
        (KeyRole::Public, true) => "Public key must be valid base64"@,
        (KeyRole::Private, true) => "Private key must be valid base64"@,
    }
}

/// Checks a key of `len` bytes, given whether it decodes as base64.
pub fn check_key(role: KeyRole, len: usize, decodes: bool) -> (r: Result<(), RedundancyError>)
    ensures
        match key_verdict(role, len as nat, decodes) {
            None => r is Ok,
            Some(v) => r matches Err(e) && is_key_error(e, v),
        },
{
    if len != KEY_LENGTH {
        match role {
            KeyRole::Public => Err(RedundancyError::InvalidPublicKey("Public key must be 44 characters".to_owned())),
            KeyRole::Private => Err(RedundancyError::InvalidPrivateKey("Private key must be 44 characters".to_owned())),
        }
    } else if !decodes {
        match role {
            KeyRole::Public => Err(RedundancyError::InvalidPublicKey("Public key must be valid base64".to_owned())),
            KeyRole::Private => Err(RedundancyError::InvalidPrivateKey("Private key must be valid base64".to_owned())),
        }
    } else {
        Ok(())
    }
}

/// The first thing wrong with a redundancy configuration.
#[derive(Clone, Copy, Debug, PartialEq, Eq, Structural)]
pub enum Problem {
    Address,
    Port,
    Key(KeyRole, bool),
    /// A field still unset: the server address, its public key, or our key.
    Unset(u8),
}

/// The verdict on a key that is present, in the role's terms.
pub open spec fn key_problem(role: KeyRole, key: Seq<char>) -> Option<Problem> {
    match key_verdict(role, encode_utf8(key).len(), is_standard_base64(key)) {
        Some(v) => Some(Problem::Key(v.0, v.1)),
        None => None,
    }
}

/// What `validate` finds, given whether the server address parses.
pub open spec fn format_problem(c: AlasRedundancyConfig, ip_parses: bool) -> Option<Problem> {
    if c.server_ip@.len() != 0 && !ip_parses {
        Some(Problem::Address)
    } else if c.port == 0 {
        Some(Problem::Port)
    } else if c.client_private_key@.len() != 0 && key_problem(KeyRole::Private, c.client_private_key@) is Some {
        key_problem(KeyRole::Private, c.client_private_key@)
    } else if c.server_public_key@.len() != 0 && key_problem(KeyRole::Public, c.server_public_key@) is Some {
        key_problem(KeyRole::Public, c.server_public_key@)
    } else {
        None
    }
}

/// The server address still holds a placeholder.
pub open spec fn is_placeholder_ip(ip: Seq<char>) -> bool {
    ip == "127.0.0.1"@ || ip == "0.0.0.0"@
}

/// What `validate_complete` finds, given whether the server address parses.
pub open spec fn completeness_problem(c: AlasRedundancyConfig, ip_parses: bool) -> Option<Problem> {
    if format_problem(c, ip_parses) is Some {
        format_problem(c, ip_parses)
    } else if is_placeholder_ip(c.server_ip@) {
        Some(Problem::Unset(0))
    } else if c.server_public_key@.len() == 0 {
        Some(Problem::Unset(1))
    } else if c.client_private_key@.len() == 0 {
        Some(Problem::Unset(2))
    } else {
        None
    }
}

/// The explanation that comes with an unset field.
pub open spec fn unset_message(field: u8) -> Seq<char> {
    if field == 0 {
        "Server IP must be configured"@
    } else if field == 1 {
        "Server public key must be configured"@
    } else {
        "Client private key missing"@
    }
}

/// Whether `r` is the error that reports problem `p` of configuration `c`.
pub open spec fn reports(c: AlasRedundancyConfig, p: Problem, r: Result<(), RedundancyError>) -> bool {
    match p {
        Problem::Address => r matches Err(RedundancyError::InvalidIpAddress(s)) && s@ == c.server_ip@,
        Problem::Port => r matches Err(RedundancyError::InvalidPort(n)) && n == c.port,
        Problem::Key(role, encoding) => r matches Err(e) && is_key_error(e, (role, encoding)),
        Problem::Unset(f) => r matches Err(RedundancyError::ConfigIncomplete(m)) && m@ == unset_message(f),
    }
}

fn check_present_key(role: KeyRole, key: &String) -> (r: Result<(), RedundancyError>)
    ensures
        match key_problem(role, key@) {
            None => r is Ok,
            Some(Problem::Key(role, encoding)) => r matches Err(e) && is_key_error(e, (role, encoding)),
            _ => false,
        },
{
    let decodes = decodes_as_base64(key.as_str());
    let bytes = key.as_str().as_bytes();
    check_key(role, bytes.len(), decodes)
}

impl AlasRedundancyConfig {
    /// Checks, given whether the server address parses as an IP address,
    /// that every field that is set is well formed: the server address,
    /// a non-zero port, and each key present 44 characters of base64.
    pub fn validate_with(&self, server_ip_parses: bool) -> (r: Result<(), RedundancyError>)
        ensures
            match format_problem(*self, server_ip_parses) {
                None => r is Ok,
                Some(p) => reports(*self, p, r),
            },
    {
        if !self.server_ip.as_str().is_empty() && !server_ip_parses {
            return Err(RedundancyError::InvalidIpAddress(self.server_ip.clone()));
        }
        if self.port == 0 {
            return Err(RedundancyError::InvalidPort(self.port));
        }
        if !self.client_private_key.as_str().is_empty() {
            let checked = check_present_key(KeyRole::Private, &self.client_private_key);
            if checked.is_err() {
                return checked;
            }
        }
        if !self.server_public_key.as_str().is_empty() {
            let checked = check_present_key(KeyRole::Public, &self.server_public_key);
            if checked.is_err() {
                return checked;
            }
        }
        Ok(())
    }

    /// Checks the configuration as `validate_with` does, then that the
    /// server address and both keys are actually set.
    pub fn validate_complete_with(&self, server_ip_parses: bool) -> (r: Result<(), RedundancyError>)
        ensures
            match completeness_problem(*self, server_ip_parses) {
                None => r is Ok,
                Some(p) => reports(*self, p, r),
            },
    {
        let basic = self.validate_with(server_ip_parses);
        if basic.is_err() {
            return basic;
        }
        if self.has_placeholder_ip() {
            return Err(RedundancyError::ConfigIncomplete("Server IP must be configured".to_owned()));
        }
        if self.server_public_key.as_str().is_empty() {
            return Err(RedundancyError::ConfigIncomplete("Server public key must be configured".to_owned()));
        }
        if self.client_private_key.as_str().is_empty() {
            return Err(RedundancyError::ConfigIncomplete("Client private key missing".to_owned()));
        }
        Ok(())
    }

    /// Checks that every field that is set is well formed, parsing the
    /// server address.
    pub fn validate(&self) -> (r: Result<(), RedundancyError>)
        ensures
            match format_problem(*self, is_ip_address(self.server_ip@)) {
                None => r is Ok,
                Some(p) => reports(*self, p, r),
            },
    {
        self.validate_with(parses_as_ip_address(self.server_ip.as_str()))
    }

    /// Checks the configuration as `validate` does, then that the server
    /// address and both keys are actually set.
    pub fn validate_complete(&self) -> (r: Result<(), RedundancyError>)
        ensures
            match completeness_problem(*self, is_ip_address(self.server_ip@)) {
                None => r is Ok,
                Some(p) => reports(*self, p, r),
            },
    {
        self.validate_complete_with(parses_as_ip_address(self.server_ip.as_str()))
    }

    fn has_placeholder_ip(&self) -> (r: bool)
        ensures
            r == is_placeholder_ip(self.server_ip@),
    {
        self.server_ip == "127.0.0.1".to_owned() || self.server_ip == "0.0.0.0".to_owned()
    }

    /// Whether this is the configuration of a device never connected to a
    /// server: placeholder address and no server key.
    pub fn is_default(&self) -> (r: bool)
        ensures
            r == (is_placeholder_ip(self.server_ip@) && self.server_public_key@.len() == 0),
    {
        self.has_placeholder_ip() && self.server_public_key.as_str().is_empty()
    }
}

impl RedundancyError {
    /// The HTTP status the web interface answers with: 400 for settings that
    /// are malformed, 412 for settings missing, 500 for failures to apply them.
    pub fn http_status(&self) -> (r: u16)
        ensures
            r == match self {
                RedundancyError::InvalidIpAddress(_) | RedundancyError::InvalidPort(_)
                | RedundancyError::InvalidPublicKey(_) | RedundancyError::InvalidPrivateKey(_) => 400u16,
                RedundancyError::ConfigNotInitialized | RedundancyError::ConfigIncomplete(_) => 412u16,
                _ => 500u16,
            },
    {
        match self {
            RedundancyError::InvalidIpAddress(_) | RedundancyError::InvalidPort(_)
            | RedundancyError::InvalidPublicKey(_) | RedundancyError::InvalidPrivateKey(_) => 400,
            RedundancyError::ConfigNotInitialized | RedundancyError::ConfigIncomplete(_) => 412,
            _ => 500,
        }
    }
}

/// The configuration stored, validated: missing means never initialised.
pub fn current_config(stored: Option<AlasRedundancyConfig>) -> (r: Result<AlasRedundancyConfig, RedundancyError>)
    ensures
        match stored {
            None => r matches Err(RedundancyError::ConfigNotInitialized),
            Some(c) => match format_problem(c, is_ip_address(c.server_ip@)) {
                None => r == Ok::<AlasRedundancyConfig, RedundancyError>(c),
                Some(p) => r matches Err(e) && reports(c, p, Err(e)),
            },
        },
{
    match stored {
        None => Err(RedundancyError::ConfigNotInitialized),
        Some(c) => {
            match c.validate() {
                Ok(()) => Ok(c),
                Err(e) => Err(e),
            }
        },
    }
}

/// The full configuration a web request asks for: its server settings, and
/// the private key already in place (the web interface never sees it).
pub fn merge_web_request(request: RedundancyWebRequest, current: AlasRedundancyConfig) -> (r: AlasRedundancyConfig)
    ensures
        r == (AlasRedundancyConfig {
            server_ip: request.server_ip,
            port: request.port,
            server_public_key: request.server_public_key,
            client_private_key: current.client_private_key,
        }),
{
    AlasRedundancyConfig {
        server_ip: request.server_ip,
        port: request.port,
        server_public_key: request.server_public_key,
        client_private_key: current.client_private_key,
    }
}

/// What the web interface shows of a configuration: all but the private key,
/// with the public key that belongs to it.
pub fn web_response(config: AlasRedundancyConfig, client_public_key: String) -> (r: RedundancyWebResponse)
    ensures
        r == (RedundancyWebResponse {
            server_ip: config.server_ip,
            port: config.port,
            server_public_key: config.server_public_key,
            client_public_key,
        }),
{
    RedundancyWebResponse {
        server_ip: config.server_ip,
        port: config.port,
        server_public_key: config.server_public_key,
        client_public_key,
    }
}

/// Whether the tunnel should be brought up at start: only when a
/// configuration exists and names a server.
pub fn should_start_tunnel(stored: &Option<AlasRedundancyConfig>) -> (r: bool)
    ensures
        r == (stored matches Some(c) && c.server_ip@.len() != 0),
{
    match stored {
        Some(c) => !c.server_ip.as_str().is_empty(),
        None => false,
    }
}

/// Whether `s` is an IPv4 or IPv6 address in the standard textual form.
pub uninterp spec fn is_ip_address(s: Seq<char>) -> bool;

/// Relies on `core::net::IpAddr`'s `FromStr`: whether the text parses as an
/// address, which depends on the text alone.
#[verifier::external_body]
fn parses_as_ip_address(s: &str) -> (r: bool)
    ensures
        r == is_ip_address(s@),
{
    s.parse::<core::net::IpAddr>().is_ok()
}

/// Relies on `std::path::Path::exists`: whether something is at `path` now.
#[verifier::external_body]
fn path_exists(path: &str) -> (r: bool) {
    std::path::Path::new(path).exists()
}

/// The configuration file to use: the one in the working directory if there
/// is one, otherwise the system-wide one.
pub fn config_file_choice(local_exists: bool) -> (r: String)
    ensures
        r@ == if local_exists {
            "./config.json"@
        } else {
            "/etc/alas/config.json"@
        },
{
    if local_exists {
        "./config.json".to_owned()
    } else {
        "/etc/alas/config.json".to_owned()
    }
}

/// Looks for `./config.json`, falling back to `/etc/alas/config.json`.
pub fn find_config_file() -> (r: String)
    ensures
        r@ == "./config.json"@ || r@ == "/etc/alas/config.json"@,
{
    config_file_choice(path_exists("./config.json"))
}

/// Where the redundancy manager keeps its state.
#[derive(Clone, Debug, PartialEq, Eq)]
pub struct RedundancyManager {
    pub wg_interface: String,
    pub engarde_config_path: String,
    pub backup_dir: String,
}

impl RedundancyManager {
    pub fn new() -> (r: RedundancyManager)
        ensures
            r.wg_interface@ == "wg0"@,
            r.engarde_config_path@ == "/var/lib/alas/engarde.yml"@,
            r.backup_dir@ == "/var/lib/alas/backups"@,
    {
        RedundancyManager {
            wg_interface: "wg0".to_owned(),
            engarde_config_path: "/var/lib/alas/engarde.yml".to_owned(),
            backup_dir: "/var/lib/alas/backups".to_owned(),
        }
    }
}

/// The body of a state-change notification to the configured webhook.
#[derive(Clone, Debug, PartialEq, Eq)]
pub struct WebhookPayload {
    pub version: u32,
    pub state: String,
}

impl WebhookPayload {
    /// A notification of the current payload version for `state`.
    pub fn new(state: String) -> (r: WebhookPayload)
        ensures
            r.version == 1,
            r.state@ == state@,
    {
        WebhookPayload { version: 1, state }
    }
}

/// The authorisation code the Dropbox sign-in page hands back.
#[derive(Clone, Debug, PartialEq, Eq)]
pub struct DropboxConfig {
    pub code: String,
}

/// The Dropbox sign-in page to send the user to.
#[derive(Clone, Debug, PartialEq, Eq)]
pub struct DropboxUrl {
    pub url: String,
}

/// Proof that a request to the web interface carried a valid token (or that
/// no password is set).
#[derive(Clone, Copy, Debug, PartialEq, Eq, Structural)]
pub struct Authenticated {}

} // verus!
