//! The application's configuration: where the server is, where local data
//! lives, and how much to log.
use vstd::prelude::*;

verus! {

/// Why the configuration could not be loaded. The causes of parse and I/O
/// errors are kept as their messages.
#[derive(Debug, Clone)]
pub enum ConfigError {
    MissingEnvVar { name: String },
    ParseError { field: String, source: String },
    IoError(String),
}

/// The human-readable message of a configuration error.
pub open spec fn config_error_message(e: ConfigError) -> Seq<char> {
    match e {
        ConfigError::MissingEnvVar { name } => "missing environment variable: "@ + name@,
        ConfigError::ParseError { field, source } => "failed to parse config field '"@ + field@ + "': "@ + source@,
        ConfigError::IoError(s) => "I/O error: "@ + s@,
    }
}

impl ConfigError {
    /// The human-readable message of this error.
    pub fn to_string(&self) -> (s: String)
        ensures
            s@ == config_error_message(*self),
    {
        match self {
            ConfigError::MissingEnvVar { name } => {
                let mut m = String::from_str("missing environment variable: ");
                m.append(name.as_str());
                m
            },
            ConfigError::ParseError { field, source } => {
                let mut m = String::from_str("failed to parse config field '");
                m.append(field.as_str());
                m.append("': ");
                m.append(source.as_str());
                m
            },
            ConfigError::IoError(s) => {
                let mut m = String::from_str("I/O error: ");
                m.append(s.as_str());
                m
            },
        }
    }
}

/// The application's configuration. Paths are held as text.
#[derive(Debug, Clone)]
pub struct AppConfig {
    pub server_url: String,
    pub db_path: String,
    pub cache_dir: String,
    pub log_level: String,
}


/// `base` joined with `name` as a file-system path.
pub uninterp spec fn spec_path_join(base: Seq<char>, name: Seq<char>) -> Seq<char>;

/// `PathBuf::from(base).join(name)`, as text (`to_string_lossy`, exact for the
/// valid UTF-8 of `&str` inputs).
#[verifier::external_body]
fn path_join(base: &str, name: &str) -> (joined: String)
    ensures
        joined@ == spec_path_join(base@, name@),
{
    std::path::PathBuf::from(base).join(name).to_string_lossy().into_owned()
}

/// The value of an optional setting, or the default.
pub open spec fn or_default(value: Option<String>, default: Seq<char>) -> Seq<char> {
    match value {
        Some(v) => v@,
        None => default,
    }
}

/// The value of an optional setting, or the default.
fn value_or(value: Option<String>, default: &str) -> (s: String)
    ensures
        s@ == or_default(value, default@),
{
    match value {
        Some(v) => v,
        None => String::from_str(default),
    }
}

impl AppConfig {
    /// The configuration from the values of the environment: each setting's
    /// variable, else its default. The database defaults to `rey.db` in the
    /// current directory (else "."), the cache to `rey` in the system's cache
    /// directory (else "/tmp").
    pub fn from_values(
        server_url: Option<String>,
        db_path: Option<String>,
        current_dir: Option<String>,
        cache_dir: Option<String>,
        system_cache_dir: Option<String>,
        log_level: Option<String>,
    ) -> (c: AppConfig)
        ensures
            c.server_url@ == or_default(server_url, "http://localhost:3002"@),
            c.db_path@ == (match db_path {
                Some(p) => p@,
                None => spec_path_join(or_default(current_dir, "."@), "rey.db"@),
            }),
            c.cache_dir@ == (match cache_dir {
                Some(p) => p@,
                None => spec_path_join(or_default(system_cache_dir, "/tmp"@), "rey"@),
            }),
            c.log_level@ == or_default(log_level, "info"@),
    {
        let server_url = value_or(server_url, "http://localhost:3002");
        let db_path = match db_path {
            Some(p) => p,
            None => {
                let base = value_or(current_dir, ".");
                path_join(base.as_str(), "rey.db")
            },
        };
        let cache_dir = match cache_dir {
            Some(p) => p,
            None => {
                let base = value_or(system_cache_dir, "/tmp");
                path_join(base.as_str(), "rey")
            },
        };
        let log_level = value_or(log_level, "info");
        AppConfig { server_url, db_path, cache_dir, log_level }
    }
}

/// The settings a configuration file may hold; each is optional.
#[derive(Debug, Clone)]
pub struct AppConfigFile {
    pub server_url: Option<String>,
    pub db_path: Option<String>,
    pub cache_dir: Option<String>,
    pub log_level: Option<String>,
}

impl AppConfigFile {
    /// The configuration with the file's settings over the defaults.
    pub fn into_app_config(self, defaults: AppConfig) -> (c: AppConfig)
        ensures
            c.server_url@ == or_default(self.server_url, defaults.server_url@),
            c.db_path@ == or_default(self.db_path, defaults.db_path@),
            c.cache_dir@ == or_default(self.cache_dir, defaults.cache_dir@),
            c.log_level@ == or_default(self.log_level, defaults.log_level@),
    {
        AppConfig {
            server_url: match self.server_url {
                Some(v) => v,
                None => defaults.server_url,
            },
            db_path: match self.db_path {
                Some(v) => v,
                None => defaults.db_path,
            },
            cache_dir: match self.cache_dir {
                Some(v) => v,
                None => defaults.cache_dir,
            },
            log_level: match self.log_level {
                Some(v) => v,
                None => defaults.log_level,
            },
        }
    }
}

/// The formats a configuration file may be written in.
#[derive(Debug, Clone, Copy, PartialEq, Eq, Structural)]
pub enum ConfigFormat {
    Toml,
    Json,
}

/// The format a configuration file's extension names: `toml` or `json`;
/// anything else is a `ParseError` of the field "extension".
pub fn config_format(extension: Option<&str>) -> (r: core::result::Result<ConfigFormat, ConfigError>)
    ensures
        r matches Ok(ConfigFormat::Toml) <==> (extension matches Some(e) && e@ == "toml"@),
        r matches Ok(ConfigFormat::Json) <==> (extension matches Some(e) && e@ == "json"@),
        r matches Err(e) ==> e == (ConfigError::ParseError {
            field: e->field,
            source: e->source,
        }) && e->field@ == "extension"@ && e->source@ == "Unsupported config file format. Use .toml or .json"@,
{
    proof {
        reveal_strlit("toml");
        reveal_strlit("json");
        assert("toml"@[0] != "json"@[0]);
    }
    let unsupported = ConfigError::ParseError {
        field: String::from_str("extension"),
        source: String::from_str("Unsupported config file format. Use .toml or .json"),
    };
    match extension {
        Some(e) => {
            let ext = String::from_str(e);
            let toml = String::from_str("toml");
            let json = String::from_str("json");
            if ext == toml {
                Ok(ConfigFormat::Toml)
            } else if ext == json {
                Ok(ConfigFormat::Json)
            } else {
                Err(unsupported)
            }
        },
        None => Err(unsupported),
    }
}

} // verus!
