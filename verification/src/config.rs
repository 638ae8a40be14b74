//! The configuration of the server: its sections, where it is loaded
//! from, and the slot that holds it once loaded.

use crate::bootstrap::MaintenanceFlags;
use crate::postgres::{text_or, PostgreSQLConfig};
use crate::singleton::GlobalSingleton;
use crate::text::{decimal, same_text, to_decimal};
use vstd::prelude::*;
use vstd::string::*;

verus! {

/// The `server` section. It is the one section that must be there.
#[derive(Clone, Debug, PartialEq, Eq)]
pub struct ServerConfig {
    pub name: Option<String>,
    pub host: Option<String>,
    pub port: Option<u16>,
    pub server_domains: Option<Vec<String>>,
    pub region: Option<String>,
    pub volumes: Option<String>,
    pub cors_allowed_origins: Option<String>,
    pub console_cors_allowed_origins: Option<String>,
    pub access_key: Option<String>,
    pub secret_key: Option<String>,
    pub root_user: Option<String>,
    pub root_password: Option<String>,
}

/// The `storage` section.
#[derive(Clone, Debug, PartialEq, Eq)]
pub struct StorageConfig {
    pub base_path: Option<String>,
}

/// The `tls` section.
#[derive(Clone, Debug, PartialEq, Eq)]
pub struct TlsConfig {
    pub path: Option<String>,
    pub key_file: Option<String>,
    pub cert_file: Option<String>,
}

/// The `observability` section. The sampling ratio is held by its bits.
#[derive(Clone, Debug, PartialEq, Eq)]
pub struct ObservabilityConfig {
    pub endpoint: Option<String>,
    pub trace_endpoint: Option<String>,
    pub metric_endpoint: Option<String>,
    pub log_endpoint: Option<String>,
    pub use_stdout: Option<bool>,
    pub sample_ratio_bits: Option<u64>,
    pub meter_interval: Option<u64>,
    pub service_name: Option<String>,
    pub service_version: Option<String>,
    pub environment: Option<String>,
    pub logger_level: Option<String>,
    pub log_stdout_enabled: Option<bool>,
    pub log_directory: Option<String>,
    pub log_filename: Option<String>,
    pub log_rotation_size_mb: Option<u64>,
    pub log_rotation_time: Option<String>,
    pub log_keep_files: Option<u32>,
}

/// The configuration file, section by section.
#[derive(Clone, Debug, PartialEq, Eq)]
pub struct Config {
    pub server: Option<ServerConfig>,
    pub database: Option<PostgreSQLConfig>,
    pub storage: Option<StorageConfig>,
    pub tls: Option<TlsConfig>,
    pub observability: Option<ObservabilityConfig>,
}

/// The token for a configuration that was loaded and installed.
#[derive(Clone, Copy, Debug, PartialEq, Eq, Structural)]
pub struct Success;

/// What can go wrong with the configuration file.
#[derive(Debug, PartialEq, Eq)]
pub enum TomlConfigError {
    /// The file could not be read.
    Io(String),
    /// The file is not the configuration that it should be.
    Parse(String),
    /// The configuration could not be written out.
    Serialize(String),
    /// There is no file at the path.
    NotFound(String),
    /// The path is no path to a configuration.
    InvalidPath(String),
    /// A configuration was installed before.
    AlreadyInitialized,
}

impl TomlConfigError {
    /// The error's message.
    pub open spec fn message_of(self) -> Seq<char> {
        match self {
            TomlConfigError::Io(d) => "Failed to read TOML file: "@ + d@,
            TomlConfigError::Parse(d) => "Failed to parse TOML: "@ + d@,
            TomlConfigError::Serialize(d) => "Failed to serialize TOML: "@ + d@,
            TomlConfigError::NotFound(d) => "Configuration file not found: "@ + d@,
            TomlConfigError::InvalidPath(d) => "Invalid configuration path: "@ + d@,
            TomlConfigError::AlreadyInitialized => "Config already initialized"@,
        }
    }

    /// The error's message.
    pub fn message(&self) -> (text: String)
        ensures
            text@ == self.message_of(),
    {
        match self {
            TomlConfigError::Io(d) => String::from_str("Failed to read TOML file: ").concat(
                d.as_str(),
            ),
            TomlConfigError::Parse(d) => String::from_str("Failed to parse TOML: ").concat(
                d.as_str(),
            ),
            TomlConfigError::Serialize(d) => String::from_str("Failed to serialize TOML: ").concat(
                d.as_str(),
            ),
            TomlConfigError::NotFound(d) => String::from_str(
                "Configuration file not found: ",
            ).concat(d.as_str()),
            TomlConfigError::InvalidPath(d) => String::from_str(
                "Invalid configuration path: ",
            ).concat(d.as_str()),
            TomlConfigError::AlreadyInitialized => String::from_str("Config already initialized"),
        }
    }
}

/// The variable that names the environment.
pub const ENVIRONMENT: &'static str = "ENVIRONMENT";

/// The file that production loads.
pub const PRODUCTION_CONFIG_FILE: &'static str = "config.toml";

/// The file that development loads.
pub const DEVELOPMENT_CONFIG_FILE: &'static str = "config.dev.toml";

/// Whether a value of the environment variable names production: `pro`,
/// `production`, `p`, `P`, `PRO` and `PRODUCTION` do.
pub open spec fn names_production(value: Seq<char>) -> bool {
    ||| value == "pro"@
    ||| value == "production"@
    ||| value == "p"@
    ||| value == "P"@
    ||| value == "PRO"@
    ||| value == "PRODUCTION"@
}

/// Whether the process runs in production: whether the environment
/// variable is set and names production.
pub fn is_production(value: Option<&str>) -> (b: bool)
    ensures
        b == match value {
            Some(v) => names_production(v@),
            None => false,
        },
{
    match value {
        Some(v) => same_text(v, "pro") || same_text(v, "production") || same_text(v, "p")
            || same_text(v, "P") || same_text(v, "PRO") || same_text(v, "PRODUCTION"),
        None => false,
    }
}

/// The configuration file to load.
pub fn config_file(production: bool) -> (path: &'static str)
    ensures
        path@ == if production {
            PRODUCTION_CONFIG_FILE@
        } else {
            DEVELOPMENT_CONFIG_FILE@
        },
{
    if production {
        PRODUCTION_CONFIG_FILE
    } else {
        DEVELOPMENT_CONFIG_FILE
    }
}

/// What reading the configuration file came to.
#[derive(Debug, PartialEq, Eq)]
pub enum FileReading {
    /// There is no file at the path.
    Missing,
    /// The file is there and could not be read, for the reason given.
    Unreadable(String),
    /// What the file holds.
    Content(String),
}

/// The error, if any, that a reading of the file at a path ends in: a
/// missing file is `NotFound` with the path, an unreadable one is `Io`
/// with the reason.
pub fn reading_error(path: &str, reading: &FileReading) -> (error: Option<TomlConfigError>)
    ensures
        match *reading {
            FileReading::Missing => error matches Some(TomlConfigError::NotFound(p)) && p@
                == path@,
            FileReading::Unreadable(reason) => error matches Some(TomlConfigError::Io(r)) && r@
                == reason@,
            FileReading::Content(_) => error is None,
        },
{
    match reading {
        FileReading::Missing => Some(TomlConfigError::NotFound(String::from_str(path))),
        FileReading::Unreadable(reason) => Some(TomlConfigError::Io(reason.clone())),
        FileReading::Content(_) => None,
    }
}

/// Turns the result of parsing the file into the library's: a failure
/// becomes `Parse` with the reason given.
pub fn load_config_from_str<C>(parsed: Result<C, String>) -> (r: Result<C, TomlConfigError>)
    ensures
        match parsed {
            Ok(config) => r == Ok::<C, TomlConfigError>(config),
            Err(reason) => r == Err::<C, TomlConfigError>(TomlConfigError::Parse(reason)),
        },
{
    match parsed {
        Ok(config) => Ok(config),
        Err(reason) => Err(TomlConfigError::Parse(reason)),
    }
}

/// What to print after loading from a path: the configuration as JSON,
/// or, where it could not be written as JSON, the reason and the file's
/// own text.
pub open spec fn announcement_of(
    path: Seq<char>,
    json: Result<String, String>,
    content: Seq<char>,
) -> Seq<char> {
    match json {
        Ok(text) => "Loaded configuration from "@ + path + " (as JSON):\n"@ + text@,
        Err(reason) => "Loaded configuration from "@ + path
            + " (failed to serialize as JSON: "@ + reason@ + "):\n"@ + content,
    }
}

/// Words what to print after loading from a path.
pub fn loaded_announcement(path: &str, json: &Result<String, String>, content: &str) -> (text:
    String)
    ensures
        text@ == announcement_of(path@, *json, content@),
{
    let mut text = String::from_str("Loaded configuration from ");
    text.append(path);
    match json {
        Ok(json_text) => {
            text.append(" (as JSON):\n");
            text.append(json_text.as_str());
        },
        Err(reason) => {
            text.append(" (failed to serialize as JSON: ");
            text.append(reason.as_str());
            text.append("):\n");
            text.append(content);
        },
    }
    text
}

/// Installs what loading the configuration came to. A configuration goes
/// into the slot if the slot is empty; if it is not, the slot keeps what
/// it has and the call fails with `AlreadyInitialized`. A failure to load
/// is handed on and the slot is left alone.
pub fn init_config(
    slot: &mut GlobalSingleton<Config>,
    loaded: Result<Config, TomlConfigError>,
) -> (r: Result<Success, TomlConfigError>)
    ensures
        match loaded {
            Ok(config) => if old(slot)@ is None {
                r is Ok && final(slot)@ == Some(config)
            } else {
                r == Err::<Success, TomlConfigError>(TomlConfigError::AlreadyInitialized)
                    && final(slot)@ == old(slot)@
            },
            Err(e) => r == Err::<Success, TomlConfigError>(e) && final(slot)@ == old(slot)@,
        },
{
    match loaded {
        Ok(config) => match slot.set(config) {
            Ok(()) => Ok(Success),
            Err(_) => Err(TomlConfigError::AlreadyInitialized),
        },
        Err(e) => Err(e),
    }
}

/// The installed configuration.
pub fn get_config(slot: &GlobalSingleton<Config>) -> (config: &Config)
    requires
        slot@ is Some,
    ensures
        Some(*config) == slot@,
{
    match slot.get() {
        Ok(config) => config,
        Err(_) => unreached(),
    }
}

/// The host that the server binds where none is configured.
pub const DEFAULT_HOST: &'static str = "0.0.0.0";

/// The port that the server binds where none is configured.
pub const DEFAULT_SERVER_PORT: u16 = 9000;

/// The volume pattern where none is configured.
pub const DEFAULT_VOLUMES: &'static str = "/deploy/data/dev{1...8}";

/// Why a configuration cannot be served from.
#[derive(Clone, Copy, Debug, PartialEq, Eq, Structural)]
pub enum ConfigurationError {
    /// The `server` section is missing.
    ServerSectionMissing,
}

impl ConfigurationError {
    /// The error's message.
    pub fn message(&self) -> (text: &'static str)
        ensures
            text@ == "Server config not found"@,
    {
        "Server config not found"
    }
}

impl ServerConfig {
    /// The address to bind: `host:port`, with `0.0.0.0` and 9000 where a
    /// part is missing.
    pub open spec fn address(self) -> Seq<char> {
        text_or(self.host, DEFAULT_HOST@) + ":"@ + decimal(
            match self.port {
                Some(port) => port as nat,
                None => DEFAULT_SERVER_PORT as nat,
            },
        )
    }

    /// The address to bind.
    pub fn bind_address(&self) -> (address: String)
        ensures
            address@ == self.address(),
    {
        let port = match self.port {
            Some(port) => port,
            None => DEFAULT_SERVER_PORT,
        };
        let digits = to_decimal(port as u64);
        let mut address = match &self.host {
            Some(host) => host.clone(),
            None => String::from_str(DEFAULT_HOST),
        };
        address.append(":");
        address.append(digits.as_str());
        address
    }

    /// The volume pattern: the configured one, or the default.
    pub fn volume_pattern(&self) -> (pattern: &str)
        ensures
            pattern@ == text_or(self.volumes, DEFAULT_VOLUMES@),
    {
        match &self.volumes {
            Some(volumes) => volumes.as_str(),
            None => DEFAULT_VOLUMES,
        }
    }
}

impl Config {
    /// The `server` section, which must be there.
    pub fn require_server(&self) -> (r: Result<&ServerConfig, ConfigurationError>)
        ensures
            match self.server {
                Some(server) => r == Ok::<&ServerConfig, ConfigurationError>(&server),
                None => r == Err::<&ServerConfig, ConfigurationError>(
                    ConfigurationError::ServerSectionMissing,
                ),
            },
    {
        match &self.server {
            Some(server) => Ok(server),
            None => Err(ConfigurationError::ServerSectionMissing),
        }
    }

    /// Whether a database section is configured.
    pub fn has_database(&self) -> (b: bool)
        ensures
            b == (self.database is Some),
    {
        self.database.is_some()
    }
}

/// The variable that switches scanning.
pub const ENABLE_SCANNER: &'static str = "NEUBULAFX_ENABLE_SCANNER";

/// The variable that switches healing.
pub const ENABLE_HEAL: &'static str = "NEUBULAFX_ENABLE_HEAL";

/// What a text says as a switch: `true`, `1`, `yes`, `on` and `enabled`
/// switch on; `false`, `0`, `no`, `off` and `disabled` switch off; any
/// other text says nothing.
pub open spec fn switch_of(text: Seq<char>) -> Option<bool> {
    if text == "true"@ || text == "1"@ || text == "yes"@ || text == "on"@ || text == "enabled"@ {
        Some(true)
    } else if text == "false"@ || text == "0"@ || text == "no"@ || text == "off"@ || text
        == "disabled"@ {
        Some(false)
    } else {
        None
    }
}

/// The value of a switch in the environment: what the variable says if it
/// is set and says something, the default otherwise.
pub open spec fn switch_or(value: Option<Seq<char>>, default: bool) -> bool {
    match value {
        Some(text) => match switch_of(text) {
            Some(b) => b,
            None => default,
        },
        None => default,
    }
}

/// Reads a switch from the text of its variable, if it is set.
pub fn parse_bool_env_var(value: Option<&str>, default: bool) -> (b: bool)
    ensures
        b == switch_or(
            match value {
                Some(v) => Some(v@),
                None => None,
            },
            default,
        ),
{
    let text = match value {
        Some(text) => text,
        None => {
            return default;
        },
    };
    proof {
        reveal_strlit("true");
        reveal_strlit("1");
        reveal_strlit("yes");
        reveal_strlit("on");
        reveal_strlit("enabled");
        reveal_strlit("false");
        reveal_strlit("0");
        reveal_strlit("no");
        reveal_strlit("off");
        reveal_strlit("disabled");
    }
    if same_text(text, "true") || same_text(text, "1") || same_text(text, "yes") || same_text(
        text,
        "on",
    ) || same_text(text, "enabled") {
        true
    } else if same_text(text, "false") || same_text(text, "0") || same_text(text, "no")
        || same_text(text, "off") || same_text(text, "disabled") {
        false
    } else {
        default
    }
}

/// The maintenance flags that the environment asks for. Both are on
/// unless their variable switches them off.
pub fn maintenance_flags(heal: Option<&str>, scanner: Option<&str>) -> (flags: MaintenanceFlags)
    ensures
        flags.enable_heal == switch_or(
            match heal {
                Some(v) => Some(v@),
                None => None,
            },
            true,
        ),
        flags.enable_scanner == switch_or(
            match scanner {
                Some(v) => Some(v@),
                None => None,
            },
            true,
        ),
{
    MaintenanceFlags {
        enable_heal: parse_bool_env_var(heal, true),
        enable_scanner: parse_bool_env_var(scanner, true),
    }
}

} // verus!
