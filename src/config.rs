//! Runtime settings: the deployment environment, the server, database and
//! application sections, and the rules that a complete configuration obeys.
use vstd::prelude::*;
use vstd::string::StringExecFns;
use vstd::utf8::encode_utf8;
use crate::text::{folded, lowercase, same_text, parse_unsigned, unsigned_value, push_decimal, decimal_text};

verus! {

/// The deployment environment the service runs in.
#[derive(Debug, Clone, Copy, PartialEq, Eq, Structural)]
pub enum Environment {
    Development,
    Production,
    Testing,
}

/// A configuration problem, as text fields so that callers can report it.
#[derive(Debug, Clone)]
pub enum ConfigError {
    MissingEnvVar(String),
    InvalidEnvVar { key: String, value: String, reason: String },
    InvalidEnvironment(String),
    ValidationError(String),
    ParseError { key: String, value: String },
}

/// The abstract value of a [`ConfigError`].
pub enum ConfigErrorView {
    MissingEnvVar(Seq<char>),
    InvalidEnvVar { key: Seq<char>, value: Seq<char>, reason: Seq<char> },
    InvalidEnvironment(Seq<char>),
    ValidationError(Seq<char>),
    ParseError { key: Seq<char>, value: Seq<char> },
}

impl View for ConfigError {
    type V = ConfigErrorView;

    open spec fn view(&self) -> ConfigErrorView {
        match self {
            ConfigError::MissingEnvVar(k) => ConfigErrorView::MissingEnvVar(k@),
            ConfigError::InvalidEnvVar { key, value, reason } => ConfigErrorView::InvalidEnvVar {
                key: key@,
                value: value@,
                reason: reason@,
            },
            ConfigError::InvalidEnvironment(v) => ConfigErrorView::InvalidEnvironment(v@),
            ConfigError::ValidationError(m) => ConfigErrorView::ValidationError(m@),
            ConfigError::ParseError { key, value } => ConfigErrorView::ParseError {
                key: key@,
                value: value@,
            },
        }
    }
}

/// The environment that an already lowercased name denotes, if any.
pub open spec fn environment_named(t: Seq<char>) -> Option<Environment> {
    if t == "development"@ || t == "dev"@ {
        Some(Environment::Development)
    } else if t == "production"@ || t == "prod"@ {
        Some(Environment::Production)
    } else if t == "testing"@ || t == "test"@ {
        Some(Environment::Testing)
    } else {
        None
    }
}

/// The error for a text that names no environment.
pub open spec fn unknown_environment(s: Seq<char>) -> ConfigErrorView {
    ConfigErrorView::InvalidEnvVar {
        key: "ENVIRONMENT"@,
        value: s,
        reason: "must be one of: development, production, testing"@,
    }
}

/// What reading `s` as an environment name gives, case aside.
pub open spec fn environment_outcome(s: Seq<char>) -> Result<Environment, ConfigErrorView> {
    match environment_named(folded(s)) {
        Some(e) => Ok(e),
        None => Err(unknown_environment(s)),
    }
}

/// The abstract value of a `Result` whose error is a [`ConfigError`].
pub open spec fn outcome_view<T>(r: Result<T, ConfigError>) -> Result<T, ConfigErrorView> {
    match r {
        Ok(v) => Ok(v),
        Err(e) => Err(e@),
    }
}

impl Environment {
    /// The environment that a lowercase name denotes: `development` or `dev`,
    /// `production` or `prod`, `testing` or `test`.
    pub fn from_lowercase_name(t: &str) -> (r: Option<Environment>)
        ensures
            r == environment_named(t@),
    {
        if same_text(t, "development") || same_text(t, "dev") {
            Some(Environment::Development)
        } else if same_text(t, "production") || same_text(t, "prod") {
            Some(Environment::Production)
        } else if same_text(t, "testing") || same_text(t, "test") {
            Some(Environment::Testing)
        } else {
            None
        }
    }

    /// Reads an environment name in any letter case.
    pub fn parse_name(s: &str) -> (r: Result<Environment, ConfigError>)
        ensures
            outcome_view(r) == environment_outcome(s@),
    {
        let lower = lowercase(s);
        match Environment::from_lowercase_name(lower.as_str()) {
            Some(e) => Ok(e),
            None => Err(
                ConfigError::InvalidEnvVar {
                    key: String::from_str("ENVIRONMENT"),
                    value: String::from_str(s),
                    reason: String::from_str("must be one of: development, production, testing"),
                },
            ),
        }
    }
}

impl core::str::FromStr for Environment {
    type Err = ConfigError;

    fn from_str(s: &str) -> Result<Environment, ConfigError> {
        Environment::parse_name(s)
    }
}

/// The address and asset settings of the HTTP server.
#[derive(Debug, Clone)]
pub struct ServerConfig {
    pub host: String,
    pub port: u16,
    pub leptos_output_name: String,
    pub leptos_site_root: String,
    pub leptos_site_pkg_dir: String,
}

/// Where the relational store lives and how many connections it may take.
#[derive(Debug, Clone)]
pub struct DatabaseConfig {
    pub url: String,
    pub max_connections: u32,
}

/// Settings of the application itself.
#[derive(Debug, Clone)]
pub struct AppConfig {
    pub environment: Environment,
    pub log_level: String,
    pub jwt_secret: String,
}

/// The complete runtime configuration.
#[derive(Debug, Clone)]
pub struct Config {
    pub server: ServerConfig,
    pub database: DatabaseConfig,
    pub app: AppConfig,
}

/// The raw values of the settings variables, `None` where a variable is unset.
#[derive(Debug, Clone)]
pub struct EnvVars {
    pub host: Option<String>,
    pub port: Option<String>,
    pub leptos_output_name: Option<String>,
    pub leptos_site_root: Option<String>,
    pub leptos_site_pkg_dir: Option<String>,
    pub database_url: Option<String>,
    pub database_max_connections: Option<String>,
    pub environment: Option<String>,
    pub log_level: Option<String>,
    pub jwt_secret: Option<String>,
}

/// The smallest length in bytes (UTF-8) of the token-signing secret.
pub const MIN_SECRET_BYTES: usize = 32;

/// The first rule that the given settings break, as the message of the
/// validation error; `None` when all hold.
pub open spec fn validation_failure(url: Seq<char>, secret: Seq<char>, port: u16) -> Option<Seq<char>> {
    if url.len() == 0 {
        Some("DATABASE_URL cannot be empty"@)
    } else if encode_utf8(secret).len() < MIN_SECRET_BYTES {
        Some("JWT_SECRET must be at least 32 characters long"@)
    } else if port == 0 {
        Some("PORT must be greater than 0"@)
    } else {
        None
    }
}

/// The text of a variable, or `d` where it is unset.
pub open spec fn or_default(v: Option<String>, d: Seq<char>) -> Seq<char> {
    match v {
        Some(s) => s@,
        None => d,
    }
}

/// The first problem met while building a configuration from `v`, in the
/// order server, database, application, then the validation rules.
pub open spec fn load_failure(v: EnvVars) -> Option<ConfigErrorView> {
    let port_text = or_default(v.port, "3000"@);
    let max_text = or_default(v.database_max_connections, "10"@);
    let env_text = or_default(v.environment, "development"@);
    if unsigned_value(port_text, u16::MAX as int) is None {
        Some(ConfigErrorView::ParseError { key: "PORT"@, value: port_text })
    } else if v.database_url is None {
        Some(ConfigErrorView::MissingEnvVar("DATABASE_URL"@))
    } else if unsigned_value(max_text, u32::MAX as int) is None {
        Some(ConfigErrorView::ParseError { key: "DATABASE_MAX_CONNECTIONS"@, value: max_text })
    } else if environment_outcome(env_text) is Err {
        Some(environment_outcome(env_text)->Err_0)
    } else if v.jwt_secret is None {
        Some(ConfigErrorView::MissingEnvVar("JWT_SECRET"@))
    } else {
        match validation_failure(
            v.database_url->Some_0@,
            v.jwt_secret->Some_0@,
            unsigned_value(port_text, u16::MAX as int)->Some_0 as u16,
        ) {
            Some(m) => Some(ConfigErrorView::ValidationError(m)),
            None => None,
        }
    }
}

/// `c` holds the values of `v`, with the defaults where a variable is unset.
pub open spec fn built_from(c: Config, v: EnvVars) -> bool {
    &&& c.server.host@ == or_default(v.host, "127.0.0.1"@)
    &&& Some(c.server.port as int) == unsigned_value(or_default(v.port, "3000"@), u16::MAX as int)
    &&& c.server.leptos_output_name@ == or_default(v.leptos_output_name, "leptos_start"@)
    &&& c.server.leptos_site_root@ == or_default(v.leptos_site_root, "target/site"@)
    &&& c.server.leptos_site_pkg_dir@ == or_default(v.leptos_site_pkg_dir, "pkg"@)
    &&& v.database_url is Some && c.database.url@ == v.database_url->Some_0@
    &&& Some(c.database.max_connections as int) == unsigned_value(
        or_default(v.database_max_connections, "10"@),
        u32::MAX as int,
    )
    &&& environment_outcome(or_default(v.environment, "development"@)) == Ok::<
        Environment,
        ConfigErrorView,
    >(c.app.environment)
    &&& c.app.log_level@ == or_default(v.log_level, "info"@)
    &&& v.jwt_secret is Some && c.app.jwt_secret@ == v.jwt_secret->Some_0@
}

/// The text of an optional variable, or the default.
fn text_or<'a>(v: &'a Option<String>, d: &'a str) -> (r: &'a str)
    ensures
        r@ == or_default(*v, d@),
{
    match v {
        Some(s) => s.as_str(),
        None => d,
    }
}

impl Config {
    /// Builds the configuration from the raw variable values: unset variables
    /// take their defaults, numbers are read in decimal, and the result must
    /// pass [`Config::validate`].
    pub fn from_env_vars(v: &EnvVars) -> (r: Result<Config, ConfigError>)
        ensures
            match load_failure(*v) {
                Some(e) => r is Err && r->Err_0@ == e,
                None => r is Ok && built_from(r->Ok_0, *v),
            },
    {
        let port_text = text_or(&v.port, "3000");
        let port = match parse_unsigned(port_text, 65535) {
            Some(p) => p as u16,
            None => {
                return Err(
                    ConfigError::ParseError {
                        key: String::from_str("PORT"),
                        value: String::from_str(port_text),
                    },
                );
            },
        };
        let url = match &v.database_url {
            Some(u) => u.clone(),
            None => {
                return Err(ConfigError::MissingEnvVar(String::from_str("DATABASE_URL")));
            },
        };
        let max_text = text_or(&v.database_max_connections, "10");
        let max_connections = match parse_unsigned(max_text, u32::MAX) {
            Some(m) => m,
            None => {
                return Err(
                    ConfigError::ParseError {
                        key: String::from_str("DATABASE_MAX_CONNECTIONS"),
                        value: String::from_str(max_text),
                    },
                );
            },
        };
        let environment = match Environment::parse_name(text_or(&v.environment, "development")) {
            Ok(e) => e,
            Err(e) => {
                return Err(e);
            },
        };
        let jwt_secret = match &v.jwt_secret {
            Some(s) => s.clone(),
            None => {
                return Err(ConfigError::MissingEnvVar(String::from_str("JWT_SECRET")));
            },
        };
        let config = Config {
            server: ServerConfig {
                host: String::from_str(text_or(&v.host, "127.0.0.1")),
                port,
                leptos_output_name: String::from_str(text_or(&v.leptos_output_name, "leptos_start")),
                leptos_site_root: String::from_str(text_or(&v.leptos_site_root, "target/site")),
                leptos_site_pkg_dir: String::from_str(text_or(&v.leptos_site_pkg_dir, "pkg")),
            },
            database: DatabaseConfig { url, max_connections },
            app: AppConfig {
                environment,
                log_level: String::from_str(text_or(&v.log_level, "info")),
                jwt_secret,
            },
        };
        match config.validate() {
            Ok(()) => Ok(config),
            Err(e) => Err(e),
        }
    }

    /// Checks, in this order, that the database URL is not empty, that the
    /// token-signing secret has at least 32 bytes in UTF-8 and that the port is not 0.
    pub fn validate(&self) -> (r: Result<(), ConfigError>)
        ensures
            match validation_failure(self.database.url@, self.app.jwt_secret@, self.server.port) {
                Some(m) => r is Err && r->Err_0@ == ConfigErrorView::ValidationError(m),
                None => r is Ok,
            },
    {
        if self.database.url.as_str().is_empty() {
            return Err(ConfigError::ValidationError(String::from_str("DATABASE_URL cannot be empty")));
        }
        if self.app.jwt_secret.as_str().as_bytes().len() < MIN_SECRET_BYTES {
            return Err(
                ConfigError::ValidationError(
                    String::from_str("JWT_SECRET must be at least 32 characters long"),
                ),
            );
        }
        if self.server.port == 0 {
            return Err(ConfigError::ValidationError(String::from_str("PORT must be greater than 0")));
        }
        Ok(())
    }

    /// The service runs in development mode.
    pub fn is_development(&self) -> (r: bool)
        ensures
            r == (self.app.environment == Environment::Development),
    {
        self.app.environment == Environment::Development
    }

    /// The service runs in production mode.
    pub fn is_production(&self) -> (r: bool)
        ensures
            r == (self.app.environment == Environment::Production),
    {
        self.app.environment == Environment::Production
    }

    /// The address the server binds to: host, a colon, and the port in decimal.
    pub fn bind_address(&self) -> (r: String)
        ensures
            r@ == self.server.host@ + ":"@ + decimal_text(self.server.port as nat),
    {
        let mut out = self.server.host.clone();
        out.append(":");
        push_decimal(&mut out, self.server.port as u32);
        out
    }
}

} // verus!
