//! Run modes and the settings that the application is started with.

use vstd::prelude::*;
use vstd::string::StringExecFns;

verus! {

/// All the settings of the application.
#[derive(Debug, Clone)]
pub struct Settings {
    pub database: DatabaseSettings,
    pub application: ApplicationSettings,
    pub test_client: TestClientSettings,
}

/// Where the client of the test suite finds its peer.
#[derive(Debug, Clone)]
pub struct TestClientSettings {
    pub base_url: String,
}

/// Where the application listens.
#[derive(Debug, Clone)]
pub struct ApplicationSettings {
    pub port: u16,
    pub host: String,
}

/// Where the database is and who connects to it.
#[derive(Debug, Clone)]
pub struct DatabaseSettings {
    pub username: String,
    pub password: String,
    pub port: u16,
    pub host: String,
    pub database_name: String,
}

/// What a connection to the database server is opened with. `database` is
/// absent for a connection to the server as a whole.
#[derive(Debug, Clone)]
pub struct ConnectOptions {
    pub host: String,
    pub username: String,
    pub password: String,
    pub port: u16,
    pub database: Option<String>,
}

impl DatabaseSettings {
    /// The options of a connection to the server, without a database.
    pub fn parse_connection_string(&self) -> (r: ConnectOptions)
        ensures
            r.host == self.host,
            r.username == self.username,
            r.password == self.password,
            r.port == self.port,
            r.database is None,
    {
        ConnectOptions {
            host: self.host.clone(),
            username: self.username.clone(),
            password: self.password.clone(),
            port: self.port,
            database: None,
        }
    }

    /// The options of a connection to the database of the settings.
    pub fn database_connection_string(&self) -> (r: ConnectOptions)
        ensures
            r.host == self.host,
            r.username == self.username,
            r.password == self.password,
            r.port == self.port,
            r.database == Some(self.database_name),
    {
        let options = self.parse_connection_string();
        ConnectOptions {
            host: options.host,
            username: options.username,
            password: options.password,
            port: options.port,
            database: Some(self.database_name.clone()),
        }
    }
}

/// The environment that the application runs in.
#[derive(Debug, Clone, Copy, PartialEq, Eq, Structural)]
pub enum Mode {
    Development,
    Production,
}

/// The mode where the environment names none.
pub const DEFAULT_ENVIRONMENT: &'static str = "development";

/// How the refusal of an environment ends, after the name that was refused.
pub const UNSUPPORTED_SUFFIX: &'static str =
    " is not a supported environment. use either development or production";

/// What `str::to_lowercase` makes of a text.
pub uninterp spec fn lowercase(text: Seq<char>) -> Seq<char>;

/// `str::to_lowercase`.
#[verifier::external_body]
fn to_lowercase(text: &str) -> (r: String)
    ensures
        r@ == lowercase(text@),
{
    text.to_lowercase()
}

impl Mode {
    /// The name of the mode, which is also the name of its configuration file.
    pub open spec fn name(self) -> Seq<char> {
        match self {
            Mode::Development => "development"@,
            Mode::Production => "production"@,
        }
    }

    pub fn as_str(&self) -> (r: &'static str)
        ensures
            r@ == self.name(),
    {
        match self {
            Mode::Development => "development",
            Mode::Production => "production",
        }
    }

    /// What a name of an environment stands for: a mode, whatever the case
    /// of the letters, or the refusal of the name in lower case.
    pub open spec fn parsed(value: Seq<char>) -> Result<Mode, Seq<char>> {
        if lowercase(value) == Mode::Development.name() {
            Ok(Mode::Development)
        } else if lowercase(value) == Mode::Production.name() {
            Ok(Mode::Production)
        } else {
            Err(lowercase(value) + UNSUPPORTED_SUFFIX@)
        }
    }

    /// The mode that `value` names.
    pub fn try_from(value: String) -> (r: Result<Mode, String>)
        ensures
            match Mode::parsed(value@) {
                Ok(mode) => r == Ok::<Mode, String>(mode),
                Err(message) => r matches Err(m) && m@ == message,
            },
    {
        let lowered = to_lowercase(value.as_str());
        if lowered == String::from_str("development") {
            Ok(Mode::Development)
        } else if lowered == String::from_str("production") {
            Ok(Mode::Production)
        } else {
            let mut message = lowered;
            message.append(UNSUPPORTED_SUFFIX);
            Err(message)
        }
    }

    /// The mode that the environment asks for: the one that `value` names,
    /// or development where the environment names none.
    pub fn from_environment(value: Option<String>) -> (r: Result<Mode, String>)
        ensures
            match Mode::parsed(
                match value {
                    Some(v) => v@,
                    None => DEFAULT_ENVIRONMENT@,
                },
            ) {
                Ok(mode) => r == Ok::<Mode, String>(mode),
                Err(message) => r matches Err(m) && m@ == message,
            },
    {
        match value {
            Some(v) => Mode::try_from(v),
            None => Mode::try_from(String::from_str(DEFAULT_ENVIRONMENT)),
        }
    }
}

} // verus!
