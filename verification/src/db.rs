//! The settings of the store connection.
//!
//! The service takes five settings from its environment. All five are
//! required, and the port has to be a number from 0 to 65535. From them
//! follows the address that the service dials.

use vstd::prelude::*;
use vstd::string::*;
use crate::decimal::digits;

verus! {

/// The environment variable that names the store's host.
pub const DB_HOST: &'static str = "DB_HOST";

/// The environment variable that holds the store's port.
pub const DB_PORT: &'static str = "DB_PORT";

/// The environment variable that names the database.
pub const DB_NAME: &'static str = "DB_NAME";

/// The environment variable that names the user to sign in as.
pub const DB_USER: &'static str = "DB_USER";

/// The environment variable that holds the user's password.
pub const DB_PASSWORD: &'static str = "DB_PASSWORD";

/// The five settings as the environment holds them: `None` for one that is
/// not set.
#[derive(Debug, Clone, PartialEq, Eq)]
pub struct Environment {
    pub host: Option<String>,
    pub port: Option<String>,
    pub name: Option<String>,
    pub user: Option<String>,
    pub password: Option<String>,
}

/// The mathematical value of an [`Environment`].
pub struct EnvironmentView {
    pub host: Option<Seq<char>>,
    pub port: Option<Seq<char>>,
    pub name: Option<Seq<char>>,
    pub user: Option<Seq<char>>,
    pub password: Option<Seq<char>>,
}

impl View for Environment {
    type V = EnvironmentView;

    open spec fn view(&self) -> EnvironmentView {
        EnvironmentView {
            host: self.host.deep_view(),
            port: self.port.deep_view(),
            name: self.name.deep_view(),
            user: self.user.deep_view(),
            password: self.password.deep_view(),
        }
    }
}

/// Why an environment gives no settings.
#[derive(Debug, Clone, Copy, PartialEq, Eq)]
pub enum ConfigError {
    /// `DB_HOST` is not set.
    HostMissing,
    /// `DB_PORT` is not set.
    PortMissing,
    /// `DB_PORT` is set to something that is no port number.
    PortInvalid,
    /// `DB_NAME` is not set.
    NameMissing,
    /// `DB_USER` is not set.
    UserMissing,
    /// `DB_PASSWORD` is not set.
    PasswordMissing,
}

impl ConfigError {
    /// The message of this error.
    pub open spec fn text(self) -> Seq<char> {
        match self {
            ConfigError::HostMissing => "DB_HOST environment variable not set"@,
            ConfigError::PortMissing => "DB_PORT environment variable not set"@,
            ConfigError::PortInvalid => "DB_PORT must be a valid port number"@,
            ConfigError::NameMissing => "DB_NAME environment variable not set"@,
            ConfigError::UserMissing => "DB_USER environment variable not set"@,
            ConfigError::PasswordMissing => "DB_PASSWORD environment variable not set"@,
        }
    }

    /// The message of this error.
    pub fn message(&self) -> (r: String)
        ensures
            r@ == self.text(),
    {
        match self {
            ConfigError::HostMissing => String::from_str("DB_HOST environment variable not set"),
            ConfigError::PortMissing => String::from_str("DB_PORT environment variable not set"),
            ConfigError::PortInvalid => String::from_str("DB_PORT must be a valid port number"),
            ConfigError::NameMissing => String::from_str("DB_NAME environment variable not set"),
            ConfigError::UserMissing => String::from_str("DB_USER environment variable not set"),
            ConfigError::PasswordMissing => String::from_str(
                "DB_PASSWORD environment variable not set",
            ),
        }
    }
}

/// What it takes to open the store connection.
#[derive(Debug, Clone, PartialEq, Eq)]
pub struct DbSettings {
    /// Host name or IP address of the store.
    pub host: String,
    /// TCP port of the store.
    pub port: u16,
    /// The database to use.
    pub database: String,
    /// The user to sign in as, by the store's own authentication.
    pub user: String,
    /// The user's password.
    pub password: String,
    /// The address to dial: host, colon, port.
    pub address: String,
    /// Whether the store's certificate is accepted unchecked.
    pub trust_certificate: bool,
    /// Whether small packets are sent at once instead of being gathered.
    pub nodelay: bool,
}

/// The mathematical value of a [`DbSettings`].
pub struct DbSettingsView {
    pub host: Seq<char>,
    pub port: u16,
    pub database: Seq<char>,
    pub user: Seq<char>,
    pub password: Seq<char>,
    pub address: Seq<char>,
    pub trust_certificate: bool,
    pub nodelay: bool,
}

impl View for DbSettings {
    type V = DbSettingsView;

    open spec fn view(&self) -> DbSettingsView {
        DbSettingsView {
            host: self.host@,
            port: self.port,
            database: self.database@,
            user: self.user@,
            password: self.password@,
            address: self.address@,
            trust_certificate: self.trust_certificate,
            nodelay: self.nodelay,
        }
    }
}

/// The value of a decimal digit character, 0 for any other character.
pub open spec fn digit_value(c: char) -> nat {
    if '0' <= c <= '9' {
        (c as int - '0' as int) as nat
    } else {
        0
    }
}

/// `c` is one of the ten decimal digits.
pub open spec fn is_digit(c: char) -> bool {
    '0' <= c <= '9'
}

/// The number that a string of decimal digits writes.
pub open spec fn value_of(text: Seq<char>) -> nat
    decreases text.len(),
{
    if text.len() == 0 {
        0
    } else {
        value_of(text.drop_last()) * 10 + digit_value(text.last())
    }
}

/// `text` without its plus sign, if it begins with one.
pub open spec fn unsigned_part(text: Seq<char>) -> Seq<char> {
    if text.len() > 0 && text[0] == '+' {
        text.drop_first()
    } else {
        text
    }
}

/// The port that `text` writes: an optional plus sign, then one or more
/// decimal digits and nothing else, for a number of at most 65535.
pub open spec fn port_of(text: Seq<char>) -> Option<u16> {
    let number = unsigned_part(text);
    if number.len() > 0 && (forall|i: int| 0 <= i < number.len() ==> is_digit(#[trigger] number[i]))
        && value_of(number) <= 65535 {
        Some(value_of(number) as u16)
    } else {
        None
    }
}

/// A longer string of digits writes no smaller number than its beginning.
pub proof fn lemma_value_of_prefix(text: Seq<char>, k: int)
    requires
        0 <= k <= text.len(),
    ensures
        value_of(text.take(k)) <= value_of(text),
    decreases text.len() - k,
{
    if k < text.len() {
        lemma_value_of_prefix(text, k + 1);
        assert(text.take(k + 1).drop_last() =~= text.take(k));
        assert(value_of(text.take(k)) <= value_of(text.take(k + 1))) by (nonlinear_arith)
            requires
                value_of(text.take(k + 1)) == value_of(text.take(k)) * 10 + digit_value(
                    text.take(k + 1).last(),
                ),
        ;
    } else {
        assert(text.take(k) =~= text);
    }
}

/// Reads a port number: an optional plus sign, then decimal digits for a
/// number of at most 65535. Anything else, the empty text and white space
/// included, is no port.
pub fn parse_port(text: &str) -> (port: Option<u16>)
    ensures
        port == port_of(text@),
{
    let ghost number = unsigned_part(text@);
    let mut first = true;
    let mut any = false;
    let mut value: u32 = 0;
    let ghost mut k: int = 0;
    for c in it: text.chars()
        invariant
            it.seq() == text@,
            number == unsigned_part(text@),
            first <==> it.index() == 0,
            0 <= k <= number.len(),
            !first ==> k == it.index() - (text@.len() - number.len()),
            first ==> k == 0,
            any <==> k > 0,
            forall|i: int| 0 <= i < k ==> is_digit(#[trigger] number[i]),
            value == value_of(number.take(k)),
            value <= 65535,
    {
        if first && c == '+' {
            first = false;
        } else {
            first = false;
            if !('0' <= c && c <= '9') {
                assert(!is_digit(number[k]));
                return None;
            }
            let digit: u32 = (c as u32) - ('0' as u32);
            let wider: u32 = value * 10 + digit;
            proof {
                assert(number.take(k + 1).drop_last() =~= number.take(k));
            }
            if wider > 65535 {
                proof {
                    lemma_value_of_prefix(number, k + 1);
                }
                return None;
            }
            value = wider;
            any = true;
            proof {
                k = k + 1;
            }
        }
    }
    proof {
        assert(number.take(k) =~= number);
    }
    if any {
        Some(value as u16)
    } else {
        None
    }
}

/// The address to dial for a host and a port: the host, a colon and the
/// port in decimal. The host `.` stands for this machine.
pub open spec fn address_of(host: Seq<char>, port: u16) -> Seq<char> {
    (if host == "."@ {
        "localhost"@
    } else {
        host
    }) + ":"@ + digits(port as nat)
}

/// The settings that an environment gives, or the first thing that is
/// wrong with it, looking at host, port, database name, user and password
/// in this order. The certificate is trusted unchecked and small packets
/// are sent at once, always.
pub open spec fn settings_of(env: EnvironmentView) -> Result<DbSettingsView, ConfigError> {
    if env.host is None {
        Err(ConfigError::HostMissing)
    } else if env.port is None {
        Err(ConfigError::PortMissing)
    } else if port_of(env.port->0) is None {
        Err(ConfigError::PortInvalid)
    } else if env.name is None {
        Err(ConfigError::NameMissing)
    } else if env.user is None {
        Err(ConfigError::UserMissing)
    } else if env.password is None {
        Err(ConfigError::PasswordMissing)
    } else {
        Ok(
            DbSettingsView {
                host: env.host->0,
                port: port_of(env.port->0)->0,
                database: env.name->0,
                user: env.user->0,
                password: env.password->0,
                address: address_of(env.host->0, port_of(env.port->0)->0),
                trust_certificate: true,
                nodelay: true,
            },
        )
    }
}

/// The mathematical value of what [`init_db`] returns.
pub open spec fn outcome_view(r: Result<DbSettings, ConfigError>) -> Result<
    DbSettingsView,
    ConfigError,
> {
    match r {
        Ok(settings) => Ok(settings@),
        Err(e) => Err(e),
    }
}

/// Sets host and port on a fresh `tiberius::Config` and calls its
/// `get_addr`. The driver answers with the host, a colon and the port in
/// decimal, and puts `localhost` in the place of the host `.`.
#[verifier::external_body]
fn server_address(host: &str, port: u16) -> (address: String)
    ensures
        address@ == address_of(host@, port),
{
    let mut config = tiberius::Config::new();
    config.host(host);
    config.port(port);
    config.get_addr()
}

/// Makes the connection settings from the environment.
///
/// All five settings are required and the port has to be a port number;
/// the error names the first that is not as it should be. Nothing is
/// opened here: the caller dials `address`, and signs in with the rest.
pub fn init_db(env: &Environment) -> (r: Result<DbSettings, ConfigError>)
    ensures
        outcome_view(r) == settings_of(env@),
{
    let host = match &env.host {
        Some(host) => host.clone(),
        None => return Err(ConfigError::HostMissing),
    };
    let port_text = match &env.port {
        Some(text) => text,
        None => return Err(ConfigError::PortMissing),
    };
    let port = match parse_port(port_text.as_str()) {
        Some(port) => port,
        None => return Err(ConfigError::PortInvalid),
    };
    let database = match &env.name {
        Some(name) => name.clone(),
        None => return Err(ConfigError::NameMissing),
    };
    let user = match &env.user {
        Some(user) => user.clone(),
        None => return Err(ConfigError::UserMissing),
    };
    let password = match &env.password {
        Some(password) => password.clone(),
        None => return Err(ConfigError::PasswordMissing),
    };
    let address = server_address(host.as_str(), port);
    Ok(
        DbSettings {
            host,
            port,
            database,
            user,
            password,
            address,
            trust_certificate: true,
            nodelay: true,
        },
    )
}

} // verus!
