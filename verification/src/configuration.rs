//! Settings the service is started with.

use crate::credential::Credential;
use vstd::prelude::*;
use vstd::string::StringExecFns;

verus! {

/// The lower-case form of `s`: what `str::to_lowercase` gives for it.
pub uninterp spec fn lowercase(s: Seq<char>) -> Seq<char>;

/// `str::to_lowercase` gives the lower-case form of a text, by the Unicode
/// property `Lowercase`. Assumed: the result depends on the text alone.
pub assume_specification[ str::to_lowercase ](s: &str) -> (lower: String)
    ensures
        lower@ == lowercase(s@),
;

/// The deployment the process runs in.
#[derive(Debug, Clone, Copy, PartialEq, Eq, Structural)]
pub enum Environment {
    Local,
    Production,
}

/// The environment that goes by the lower-case name `name`, if there is one.
pub open spec fn environment_named(name: Seq<char>) -> Option<Environment> {
    if name == "local"@ {
        Some(Environment::Local)
    } else if name == "production"@ {
        Some(Environment::Production)
    } else {
        None
    }
}

/// The error for a text that names no environment.
pub open spec fn unsupported_text(name: Seq<char>) -> Seq<char> {
    name + " is not a supported environment. Use either 'local' or 'production'."@
}

/// Whether `r` is what the lower-case name `name` is read as: the
/// environment that goes by it, or else the error that carries it.
pub open spec fn read_as(name: Seq<char>, r: Result<Environment, String>) -> bool {
    match r {
        Ok(environment) => environment_named(name) == Some(environment),
        Err(e) => environment_named(name) is None && e@ == unsupported_text(name),
    }
}

impl Environment {
    /// The lower-case name of the environment, as it stands in file names
    /// and in the variable that selects the environment.
    pub open spec fn name(self) -> Seq<char> {
        match self {
            Environment::Local => "local"@,
            Environment::Production => "production"@,
        }
    }

    pub fn as_str(&self) -> (name: &'static str)
        ensures
            name@ == self.name(),
    {
        match self {
            Environment::Local => "local",
            Environment::Production => "production",
        }
    }

    /// The environment that goes by `name`, which is taken as it stands:
    /// upper-case letters are not folded.
    pub fn from_name(name: String) -> (r: Result<Environment, String>)
        ensures
            read_as(name@, r),
    {
        if name == "local".to_owned() {
            Ok(Environment::Local)
        } else if name == "production".to_owned() {
            Ok(Environment::Production)
        } else {
            Err(name.concat(" is not a supported environment. Use either 'local' or 'production'."))
        }
    }

    /// The environment that `s` names, in whatever case it is written.
    pub fn try_from(s: String) -> (r: Result<Environment, String>)
        ensures
            read_as(lowercase(s@), r),
    {
        Environment::from_name(s.as_str().to_lowercase())
    }

    /// The environment to run in, from the value of the variable that
    /// selects it: `Local` where the variable is not set.
    pub fn selected(variable: Option<String>) -> (r: Result<Environment, String>)
        ensures
            match variable {
                None => r == Ok::<Environment, String>(Environment::Local),
                Some(s) => read_as(lowercase(s@), r),
            },
    {
        match variable {
            None => Ok(Environment::Local),
            Some(s) => Environment::try_from(s),
        }
    }

    /// The name of the file that holds the settings of this environment.
    pub fn settings_file(&self) -> (file: String)
        ensures
            file@ == self.name() + ".yaml"@,
    {
        self.as_str().to_owned().concat(".yaml")
    }
}

/// Each environment is the one that goes by its own name.
pub proof fn lemma_environment_is_named(environment: Environment)
    ensures
        environment_named(environment.name()) == Some(environment),
{
    reveal_strlit("local");
    reveal_strlit("production");
    assert("local"@.len() != "production"@.len());
}

/// Where the service listens.
pub struct ApplicationSettings {
    pub port: u16,
    pub host: String,
}

/// Where the database is and how to log in to it.
pub struct DatabaseSettings {
    pub username: String,
    pub password: Credential,
    pub port: u16,
    pub host: String,
    pub database_name: String,
    pub require_ssl: bool,
}

/// All the settings of the service.
pub struct Settings {
    pub database: DatabaseSettings,
    pub application: ApplicationSettings,
}

/// Whether a connection to the database must be encrypted.
#[derive(Debug, Clone, Copy, PartialEq, Eq, Structural)]
pub enum SslMode {
    /// Connect only if the connection can be encrypted.
    Require,
    /// Encrypt the connection if the server can, and connect anyway if not.
    Prefer,
}

/// The mode that the setting `require_ssl` asks for.
pub open spec fn ssl_mode_for(require_ssl: bool) -> SslMode {
    if require_ssl {
        SslMode::Require
    } else {
        SslMode::Prefer
    }
}

/// What a connection to the database server is opened with.
pub struct ConnectOptions<'a> {
    pub host: &'a str,
    pub username: &'a str,
    pub password: &'a Credential,
    pub port: u16,
    pub ssl_mode: SslMode,
    /// The database to open, or `None` to connect to the server alone.
    pub database: Option<&'a str>,
}

impl<'a> ConnectOptions<'a> {
    /// Whether these options connect to the server that `settings` describe,
    /// as the user and in the mode that they ask for.
    pub open spec fn reaches(self, settings: &DatabaseSettings) -> bool {
        &&& self.host@ == settings.host@
        &&& self.username@ == settings.username@
        &&& self.password@ == settings.password@
        &&& self.port == settings.port
        &&& self.ssl_mode == ssl_mode_for(settings.require_ssl)
    }
}

impl DatabaseSettings {
    /// The options that connect to the database server, to no database of
    /// it.
    pub fn connect_without_db(&self) -> (options: ConnectOptions<'_>)
        ensures
            options.reaches(self),
            options.database is None,
    {
        let ssl_mode = if self.require_ssl {
            SslMode::Require
        } else {
            SslMode::Prefer
        };
        ConnectOptions {
            host: self.host.as_str(),
            username: self.username.as_str(),
            password: &self.password,
            port: self.port,
            ssl_mode,
            database: None,
        }
    }

    /// The options that connect to the database named in the settings.
    pub fn connect_with_db(&self) -> (options: ConnectOptions<'_>)
        ensures
            options.reaches(self),
            options.database matches Some(name) && name@ == self.database_name@,
    {
        let mut options = self.connect_without_db();
        options.database = Some(self.database_name.as_str());
        options
    }
}

} // verus!
