//! Reading the daemon's status reply: where its web service listens, and
//! whether this launcher is the one registered to present its UI.

use vstd::prelude::*;
use crate::json::JsonValue;

verus! {

/// How the host platform writes command lines and quotes paths.
#[derive(Debug, Clone, Copy, PartialEq, Eq, Structural)]
pub enum Platform {
    /// POSIX shell quoting; paths are quoted with `'`.
    Unix,
    /// Windows command-line rules; paths are quoted with `"`.
    Windows,
}

/// Everything that can stop the preflight handshake.
#[derive(Debug, Clone, Copy, PartialEq, Eq, Structural)]
pub enum PreflightError {
    /// No daemon answered on the local socket.
    DaemonUnavailable,
    /// The status query got no usable reply.
    NoStatus,
    /// No `activation.active_path` (the registered launcher's path).
    ActivationPathMissing,
    /// The user declined to register this launcher.
    ConsentDenied,
    /// No `Status` in the reply.
    StatusMissing,
    /// No `Status.config`.
    ConfigMissing,
    /// No `config.http_settings`.
    HttpSettingsMissing,
    /// No `http_settings.bind_address`.
    BindAddressMissing,
    /// `bind_address` is not a string.
    BindAddressNotText,
    /// No `http_settings.port`.
    PortMissing,
    /// `port` is not a non-negative integer that fits in 64 bits.
    PortNotNumber,
}

impl PreflightError {
    pub open spec fn text(self) -> Seq<char> {
        match self {
            PreflightError::DaemonUnavailable => "The GoXLR Utility must be running before launching this app."@,
            PreflightError::NoStatus => "Unable to locate the Utility's URL"@,
            PreflightError::ActivationPathMissing => "Unable to locate Activation Path"@,
            PreflightError::ConsentDenied => "Unable to obtain User Consent"@,
            PreflightError::StatusMissing => "Status missing from GetStatus response!"@,
            PreflightError::ConfigMissing => "config missing from Status response"@,
            PreflightError::HttpSettingsMissing => "http_settings missing from Config response"@,
            PreflightError::BindAddressMissing => "bind_address Missing from http_status"@,
            PreflightError::BindAddressNotText => "Unable to parse bind_address as String"@,
            PreflightError::PortMissing => "Port Missing from http_status"@,
            PreflightError::PortNotNumber => "Unable to Parse Port"@,
        }
    }

    /// The message shown to the user.
    pub fn message(&self) -> (r: String)
        ensures
            r@ == self.text(),
    {
        let s = match self {
            PreflightError::DaemonUnavailable => "The GoXLR Utility must be running before launching this app.",
            PreflightError::NoStatus => "Unable to locate the Utility's URL",
            PreflightError::ActivationPathMissing => "Unable to locate Activation Path",
            PreflightError::ConsentDenied => "Unable to obtain User Consent",
            PreflightError::StatusMissing => "Status missing from GetStatus response!",
            PreflightError::ConfigMissing => "config missing from Status response",
            PreflightError::HttpSettingsMissing => "http_settings missing from Config response",
            PreflightError::BindAddressMissing => "bind_address Missing from http_status",
            PreflightError::BindAddressNotText => "Unable to parse bind_address as String",
            PreflightError::PortMissing => "Port Missing from http_status",
            PreflightError::PortNotNumber => "Unable to Parse Port",
        };
        s.to_string()
    }
}

/// The decimal digit for `d` (below ten).
pub open spec fn digit(d: nat) -> char {
    seq!['0', '1', '2', '3', '4', '5', '6', '7', '8', '9'][d as int]
}

/// `n` written in decimal, without leading zeros.
pub open spec fn decimal(n: nat) -> Seq<char>
    decreases n,
{
    if n < 10 {
        seq![digit(n)]
    } else {
        decimal(n / 10).push(digit(n % 10))
    }
}

fn digit_text(d: u64) -> (r: &'static str)
    requires
        d < 10,
    ensures
        r@ == seq![digit(d as nat)],
{
    proof {
        reveal_strlit("0");
        reveal_strlit("1");
        reveal_strlit("2");
        reveal_strlit("3");
        reveal_strlit("4");
        reveal_strlit("5");
        reveal_strlit("6");
        reveal_strlit("7");
        reveal_strlit("8");
        reveal_strlit("9");
    }
    if d == 0 {
        "0"
    } else if d == 1 {
        "1"
    } else if d == 2 {
        "2"
    } else if d == 3 {
        "3"
    } else if d == 4 {
        "4"
    } else if d == 5 {
        "5"
    } else if d == 6 {
        "6"
    } else if d == 7 {
        "7"
    } else if d == 8 {
        "8"
    } else {
        "9"
    }
}

/// `n` in decimal.
pub fn decimal_string(n: u64) -> (r: String)
    ensures
        r@ == decimal(n as nat),
    decreases n,
{
    if n < 10 {
        digit_text(n).to_string()
    } else {
        let mut r = decimal_string(n / 10);
        r.append(digit_text(n % 10));
        r
    }
}

/// The host that a client uses for a service bound to `bind`: the wildcard
/// address becomes the loopback name.
pub open spec fn client_host(bind: Seq<char>) -> Seq<char> {
    if bind == "0.0.0.0"@ {
        "localhost"@
    } else {
        bind
    }
}

/// Where the daemon's web service can be reached.
#[derive(Debug, PartialEq)]
pub struct Endpoint {
    pub host: String,
    pub port: u64,
}

impl Endpoint {
    /// `host:port`.
    pub open spec fn authority(self) -> Seq<char> {
        self.host@ + ":"@ + decimal(self.port as nat)
    }

    pub fn address(&self) -> (r: String)
        ensures
            r@ == self.authority(),
    {
        let mut r = self.host.clone();
        r.append(":");
        let port = decimal_string(self.port);
        r.append(port.as_str());
        r
    }
}

/// The service endpoint that a status reply announces, as host and port, or
/// the first field on the way to it that is missing or of the wrong kind.
pub open spec fn host_of(status: JsonValue) -> Result<(Seq<char>, u64), PreflightError> {
    match status.field("Status"@) {
        None => Err(PreflightError::StatusMissing),
        Some(st) => match st.field("config"@) {
            None => Err(PreflightError::ConfigMissing),
            Some(config) => match config.field("http_settings"@) {
                None => Err(PreflightError::HttpSettingsMissing),
                Some(http) => match http.field("bind_address"@) {
                    None => Err(PreflightError::BindAddressMissing),
                    Some(bind) => match bind.text() {
                        None => Err(PreflightError::BindAddressNotText),
                        Some(addr) => match http.field("port"@) {
                            None => Err(PreflightError::PortMissing),
                            Some(port) => match port.unsigned() {
                                None => Err(PreflightError::PortNotNumber),
                                Some(p) => Ok((client_host(addr), p)),
                            },
                        },
                    },
                },
            },
        },
    }
}

/// The endpoint of the daemon's web service, from a status reply.
pub fn get_goxlr_host(status: &JsonValue) -> (r: Result<Endpoint, PreflightError>)
    ensures
        match host_of(*status) {
            Ok((host, port)) => r matches Ok(e) && e.host@ == host && e.port == port,
            Err(e) => r == Err::<Endpoint, PreflightError>(e),
        },
{
    let st = match status.get(&"Status".to_string()) {
        Some(v) => v,
        None => return Err(PreflightError::StatusMissing),
    };
    let config = match st.get(&"config".to_string()) {
        Some(v) => v,
        None => return Err(PreflightError::ConfigMissing),
    };
    let http = match config.get(&"http_settings".to_string()) {
        Some(v) => v,
        None => return Err(PreflightError::HttpSettingsMissing),
    };
    let bind = match http.get(&"bind_address".to_string()) {
        Some(v) => v,
        None => return Err(PreflightError::BindAddressMissing),
    };
    let addr = match bind.as_str() {
        Some(a) => a,
        None => return Err(PreflightError::BindAddressNotText),
    };
    let port = match http.get(&"port".to_string()) {
        Some(v) => v,
        None => return Err(PreflightError::PortMissing),
    };
    let port = match port.as_u64() {
        Some(p) => p,
        None => return Err(PreflightError::PortNotNumber),
    };
    let wildcard = "0.0.0.0".to_string();
    let host = if *addr == wildcard {
        "localhost".to_string()
    } else {
        addr.clone()
    };
    Ok(Endpoint { host, port })
}

/// The words of a command line under POSIX shell quoting; nothing where a
/// quote or escape is left open.
pub uninterp spec fn shell_words_of(line: Seq<char>) -> Option<Seq<Seq<char>>>;

/// The characters of `s` before the first one that `stop` holds of.
pub open spec fn before(s: Seq<char>, stop: spec_fn(char) -> bool) -> Seq<char>
    decreases s.len(),
{
    if s.len() == 0 {
        s
    } else if stop(s[0]) {
        Seq::empty()
    } else {
        seq![s[0]] + before(s.drop_first(), stop)
    }
}

/// The program (first argument) of a command line under Windows rules. The
/// line ends at a NUL. A leading quote runs to the next quote; a leading
/// blank or control character gives an empty name; otherwise the name runs
/// to the first blank or control character.
pub open spec fn windows_program_of(line: Seq<char>) -> Seq<char> {
    let line = before(line, |c: char| c == '\0');
    if line.len() == 0 {
        Seq::empty()
    } else if line[0] == '"' {
        before(line.drop_first(), |c: char| c == '"')
    } else if (line[0] as u32) <= 32 {
        Seq::empty()
    } else {
        before(line, |c: char| (c as u32) <= 32)
    }
}

/// A lower-case hexadecimal digit.
pub open spec fn hex_digit(d: nat) -> char {
    seq!['0', '1', '2', '3', '4', '5', '6', '7', '8', '9', 'a', 'b', 'c', 'd', 'e', 'f'][d as int]
}

/// How one character is written inside a JSON string literal: quote and
/// backslash are escaped, control characters take their short escape or
/// `\u00xx`, everything else stands as it is.
pub open spec fn json_escape(c: char) -> Seq<char> {
    if c == '"' {
        seq!['\\', '"']
    } else if c == '\\' {
        seq!['\\', '\\']
    } else if c == '\x08' {
        seq!['\\', 'b']
    } else if c == '\t' {
        seq!['\\', 't']
    } else if c == '\n' {
        seq!['\\', 'n']
    } else if c == '\x0c' {
        seq!['\\', 'f']
    } else if c == '\r' {
        seq!['\\', 'r']
    } else if (c as u32) < 32 {
        seq!['\\', 'u', '0', '0', hex_digit((c as u32 / 16) as nat), hex_digit((c as u32 % 16) as nat)]
    } else {
        seq![c]
    }
}

/// The escaped characters of a text.
pub open spec fn json_escaped(text: Seq<char>) -> Seq<char>
    decreases text.len(),
{
    if text.len() == 0 {
        Seq::empty()
    } else {
        json_escaped(text.drop_last()) + json_escape(text.last())
    }
}

/// A text as a JSON string literal.
pub open spec fn json_quoted(text: Seq<char>) -> Seq<char> {
    seq!['"'] + json_escaped(text) + seq!['"']
}

/// shell_words' error for an unterminated quote or escape, carried opaque.
#[verifier::external_type_specification]
#[verifier::external_body]
pub struct ExShellParseError(shell_words::ParseError);

/// Relies on `shell_words::split`: the words of a command line, or an error
/// for an unterminated quote or escape.
#[verifier::external_body]
fn split_shell_words(line: &str) -> (r: Result<Vec<String>, shell_words::ParseError>)
    ensures
        match r {
            Ok(words) => shell_words_of(line@) == Some(words@.map_values(|w: String| w@)),
            Err(_) => shell_words_of(line@) is None,
        },
{
    shell_words::split(line)
}

/// Relies on `windows_args::Args::parse_cmd`, which always yields at least
/// one argument: the first one it yields, the program as the Windows rules
/// for it read the line.
#[verifier::external_body]
fn windows_program(line: &str) -> (r: Option<String>)
    ensures
        r is Some,
        r->0@ == windows_program_of(line@),
{
    windows_args::Args::parse_cmd(line).next()
}

/// Relies on serde_json's `Display` of `Value::String`: the text quoted, with
/// serde_json's escapes.
#[verifier::external_body]
fn json_string_literal(text: &String) -> (r: String)
    ensures
        r@ == json_quoted(text@),
{
    serde_json::Value::String(text.clone()).to_string()
}

/// The program named by a command line as the platform tokenizes it.
pub open spec fn program_of(platform: Platform, line: Seq<char>) -> Option<Seq<char>> {
    match platform {
        Platform::Unix => match shell_words_of(line) {
            Some(words) => if words.len() > 0 {
                Some(words[0])
            } else {
                None
            },
            None => None,
        },
        Platform::Windows => Some(windows_program_of(line)),
    }
}

pub fn program_of_line(platform: Platform, line: &String) -> (r: Option<String>)
    ensures
        match r {
            Some(p) => program_of(platform, line@) == Some(p@),
            None => program_of(platform, line@) is None,
        },
{
    match platform {
        Platform::Unix => match split_shell_words(line.as_str()) {
            Ok(words) => {
                if words.len() > 0 {
                    Some(words[0].clone())
                } else {
                    None
                }
            },
            Err(_) => None,
        },
        Platform::Windows => windows_program(line.as_str()),
    }
}

/// What a status reply says of this launcher's registration.
#[derive(Debug, Clone, Copy, PartialEq, Eq, Structural)]
pub enum Activation {
    /// The daemon predates launcher registration.
    Unsupported,
    /// This executable is already the registered launcher.
    Current,
    /// Another launcher (or none) is registered: registering needs consent.
    ConsentRequired,
}

/// Whether the daemon that sent `status` knows about launcher registration.
pub open spec fn has_activation(status: JsonValue) -> bool {
    match status.field("Status"@) {
        Some(st) => match st.field("config"@) {
            Some(config) => config.field("activation"@) is Some,
            None => false,
        },
        None => false,
    }
}

/// The registration state that `status` reports for the executable `exe`.
pub open spec fn activation_of(status: JsonValue, exe: Seq<char>, platform: Platform) -> Result<
    Activation,
    PreflightError,
> {
    match status.field("Status"@) {
        None => Err(PreflightError::StatusMissing),
        Some(st) => match st.field("config"@) {
            None => Err(PreflightError::ConfigMissing),
            Some(config) => match config.field("activation"@) {
                None => Ok(Activation::Unsupported),
                Some(activation) => match activation.field("active_path"@) {
                    None => Err(PreflightError::ActivationPathMissing),
                    Some(path) => if registered_program(path, platform) == Some(exe) {
                        Ok(Activation::Current)
                    } else {
                        Ok(Activation::ConsentRequired)
                    },
                },
            },
        },
    }
}

/// The program of the registered launcher's command line; nothing where the
/// value is not text (no launcher) or names no program.
pub open spec fn registered_program(path: JsonValue, platform: Platform) -> Option<Seq<char>> {
    match path.text() {
        Some(line) => program_of(platform, line),
        None => None,
    }
}

/// Whether the daemon that sent `status` supports launcher registration.
pub fn supports_activation(status: &JsonValue) -> (r: bool)
    ensures
        r == has_activation(*status),
{
    match status.get(&"Status".to_string()) {
        Some(st) => match st.get(&"config".to_string()) {
            Some(config) => config.get(&"activation".to_string()).is_some(),
            None => false,
        },
        None => false,
    }
}

/// Whether `exe` is the launcher that `status` reports as registered.
pub fn check_app_runtime(status: &JsonValue, exe: &String, platform: Platform) -> (r: Result<
    Activation,
    PreflightError,
>)
    ensures
        r == activation_of(*status, exe@, platform),
{
    let st = match status.get(&"Status".to_string()) {
        Some(v) => v,
        None => return Err(PreflightError::StatusMissing),
    };
    let config = match st.get(&"config".to_string()) {
        Some(v) => v,
        None => return Err(PreflightError::ConfigMissing),
    };
    let activation = match config.get(&"activation".to_string()) {
        Some(v) => v,
        None => return Ok(Activation::Unsupported),
    };
    let path = match activation.get(&"active_path".to_string()) {
        Some(v) => v,
        None => return Err(PreflightError::ActivationPathMissing),
    };
    let program = match path.as_str() {
        Some(line) => program_of_line(platform, line),
        None => None,
    };
    match program {
        Some(p) => {
            if p == *exe {
                Ok(Activation::Current)
            } else {
                Ok(Activation::ConsentRequired)
            }
        },
        None => Ok(Activation::ConsentRequired),
    }
}

/// The platform's quote character for paths.
pub open spec fn quote_of(platform: Platform) -> Seq<char> {
    match platform {
        Platform::Unix => "'"@,
        Platform::Windows => "\""@,
    }
}

pub open spec fn platform_path(platform: Platform, exe: Seq<char>) -> Seq<char> {
    quote_of(platform) + exe + quote_of(platform)
}

/// The executable path as the daemon stores it: quoted for the platform.
pub fn get_platform_path(platform: Platform, exe: &String) -> (r: String)
    ensures
        r@ == platform_path(platform, exe@),
{
    let quote = match platform {
        Platform::Unix => "'",
        Platform::Windows => "\"",
    };
    let mut r = quote.to_string();
    r.append(exe.as_str());
    r.append(quote);
    r
}

/// The JSON text of the command that registers `exe` as the launcher, or
/// clears the registration.
pub open spec fn activator_command(platform: Platform, exe: Option<Seq<char>>) -> Seq<char> {
    let value = match exe {
        Some(path) => json_quoted(platform_path(platform, path)),
        None => "null"@,
    };
    "{ \"Daemon\": { \"SetActivatorPath\": "@ + value + "  } }"@
}

pub fn get_activator_command(platform: Platform, exe: Option<&String>) -> (r: String)
    ensures
        r@ == activator_command(
            platform,
            match exe {
                Some(p) => Some(p@),
                None => None,
            },
        ),
{
    let value = match exe {
        Some(path) => json_string_literal(&get_platform_path(platform, path)),
        None => "null".to_string(),
    };
    let mut r = "{ \"Daemon\": { \"SetActivatorPath\": ".to_string();
    r.append(value.as_str());
    r.append("  } }");
    r
}

/// The capability probe reads the status reply alone: asked twice of an
/// unchanged status, it gives the same answer.
pub proof fn lemma_probe_is_stable(first: JsonValue, second: JsonValue)
    requires
        first == second,
    ensures
        has_activation(first) == has_activation(second),
{
}

/// A reply whose `http_settings` lacks `port` fails with the error for that
/// field, whose message is not the one for a missing `bind_address`.
pub proof fn lemma_missing_port_is_named(status: JsonValue)
    requires
        status.field("Status"@) matches Some(st) && st.field("config"@) matches Some(config)
            && config.field("http_settings"@) matches Some(http) && http.field(
            "bind_address"@,
        ) matches Some(bind) && bind.text() is Some && http.field("port"@) is None,
    ensures
        host_of(status) == Err::<(Seq<char>, u64), PreflightError>(PreflightError::PortMissing),
        PreflightError::PortMissing.text() != PreflightError::BindAddressMissing.text(),
{
    reveal_strlit("Port Missing from http_status");
    reveal_strlit("bind_address Missing from http_status");
    assert(PreflightError::PortMissing.text()[0] != PreflightError::BindAddressMissing.text()[0]);
}

} // verus!
