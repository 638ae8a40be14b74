use nebulafx::bootstrap::MaintenanceFlags;
use nebulafx::config::{
    config_file, get_config, init_config, is_production, load_config_from_str,
    loaded_announcement, maintenance_flags, parse_bool_env_var, reading_error, Config,
    ConfigurationError, FileReading, ServerConfig, StorageConfig, Success, TlsConfig,
    TomlConfigError, DEFAULT_HOST, DEFAULT_SERVER_PORT, DEFAULT_VOLUMES, ENABLE_HEAL,
    ENABLE_SCANNER, ENVIRONMENT,
};
use nebulafx::singleton::GlobalSingleton;

fn server() -> ServerConfig {
    ServerConfig {
        name: None,
        host: None,
        port: None,
        server_domains: None,
        region: None,
        volumes: None,
        cors_allowed_origins: None,
        console_cors_allowed_origins: None,
        access_key: None,
        secret_key: None,
        root_user: None,
        root_password: None,
    }
}

fn config(with_server: bool) -> Config {
    Config {
        server: if with_server { Some(server()) } else { None },
        database: None,
        storage: Some(StorageConfig { base_path: Some("/data".to_string()) }),
        tls: Some(TlsConfig { path: None, key_file: None, cert_file: None }),
        observability: None,
    }
}

#[test]
fn production_is_named_in_six_ways() {
    for name in ["pro", "production", "p", "P", "PRO", "PRODUCTION"] {
        assert!(is_production(Some(name)), "{}", name);
    }
    for name in ["", "dev", "Pro", "Production", "prod", " p", "p ", "development"] {
        assert!(!is_production(Some(name)), "{:?}", name);
    }
    assert!(!is_production(None));
    assert_eq!(ENVIRONMENT, "ENVIRONMENT");
}

#[test]
fn config_file_follows_the_environment() {
    assert_eq!(config_file(true), "config.toml");
    assert_eq!(config_file(false), "config.dev.toml");
}

#[test]
fn reading_errors() {
    assert_eq!(
        reading_error("conf/a.toml", &FileReading::Missing),
        Some(TomlConfigError::NotFound("conf/a.toml".to_string()))
    );
    assert_eq!(
        reading_error("a.toml", &FileReading::Unreadable("denied".to_string())),
        Some(TomlConfigError::Io("denied".to_string()))
    );
    assert_eq!(reading_error("a.toml", &FileReading::Content("x = 1".to_string())), None);
}

#[test]
fn parse_failures_become_parse_errors() {
    assert_eq!(load_config_from_str::<u8>(Ok(4)), Ok(4));
    assert_eq!(
        load_config_from_str::<u8>(Err("expected `=`".to_string())),
        Err(TomlConfigError::Parse("expected `=`".to_string()))
    );
}

#[test]
fn configuration_error_messages() {
    assert_eq!(TomlConfigError::Io("e".to_string()).message(), "Failed to read TOML file: e");
    assert_eq!(TomlConfigError::Parse("e".to_string()).message(), "Failed to parse TOML: e");
    assert_eq!(
        TomlConfigError::Serialize("e".to_string()).message(),
        "Failed to serialize TOML: e"
    );
    assert_eq!(
        TomlConfigError::NotFound("a.toml".to_string()).message(),
        "Configuration file not found: a.toml"
    );
    assert_eq!(
        TomlConfigError::InvalidPath("?".to_string()).message(),
        "Invalid configuration path: ?"
    );
    assert_eq!(TomlConfigError::AlreadyInitialized.message(), "Config already initialized");
    assert_eq!(ConfigurationError::ServerSectionMissing.message(), "Server config not found");
}

#[test]
fn announcement_after_loading() {
    assert_eq!(
        loaded_announcement("config.toml", &Ok("{}".to_string()), "ignored"),
        "Loaded configuration from config.toml (as JSON):\n{}"
    );
    assert_eq!(
        loaded_announcement("config.toml", &Err("nan".to_string()), "x = 1"),
        "Loaded configuration from config.toml (failed to serialize as JSON: nan):\nx = 1"
    );
}

#[test]
fn configuration_is_installed_once() {
    let mut slot: GlobalSingleton<Config> = GlobalSingleton::new();
    assert_eq!(
        init_config(&mut slot, Err(TomlConfigError::NotFound("config.dev.toml".to_string()))),
        Err(TomlConfigError::NotFound("config.dev.toml".to_string()))
    );
    assert!(!slot.is_set());
    assert_eq!(init_config(&mut slot, Ok(config(true))), Ok(Success));
    assert_eq!(get_config(&slot), &config(true));
    assert_eq!(
        init_config(&mut slot, Ok(config(false))),
        Err(TomlConfigError::AlreadyInitialized)
    );
    assert_eq!(get_config(&slot), &config(true));
    assert_eq!(
        init_config(&mut slot, Err(TomlConfigError::Parse("x".to_string()))),
        Err(TomlConfigError::Parse("x".to_string()))
    );
    assert_eq!(get_config(&slot), &config(true));
}

#[test]
fn server_section_is_required() {
    assert_eq!(config(false).require_server(), Err(ConfigurationError::ServerSectionMissing));
    assert_eq!(config(true).require_server(), Ok(&server()));
    assert!(!config(true).has_database());
}

#[test]
fn bind_address_and_volumes_have_defaults() {
    assert_eq!(server().bind_address(), "0.0.0.0:9000");
    assert_eq!(server().volume_pattern(), "/deploy/data/dev{1...8}");
    let configured = ServerConfig {
        host: Some("127.0.0.1".to_string()),
        port: Some(9100),
        volumes: Some("/mnt/disk{1...4}".to_string()),
        ..server()
    };
    assert_eq!(configured.bind_address(), "127.0.0.1:9100");
    assert_eq!(configured.volume_pattern(), "/mnt/disk{1...4}");
    let host_only = ServerConfig { host: Some("::".to_string()), ..server() };
    assert_eq!(host_only.bind_address(), ":::9000");
    assert_eq!(DEFAULT_HOST, "0.0.0.0");
    assert_eq!(DEFAULT_SERVER_PORT, 9000);
    assert_eq!(DEFAULT_VOLUMES, "/deploy/data/dev{1...8}");
}

#[test]
fn switches_read_the_common_forms() {
    for text in ["true", "1", "yes", "on", "enabled"] {
        assert!(parse_bool_env_var(Some(text), false), "{}", text);
        assert!(parse_bool_env_var(Some(text), true), "{}", text);
    }
    for text in ["false", "0", "no", "off", "disabled"] {
        assert!(!parse_bool_env_var(Some(text), false), "{}", text);
        assert!(!parse_bool_env_var(Some(text), true), "{}", text);
    }
    for text in ["", "maybe", "TRUE", "False", " 1", "2", "enable"] {
        assert!(parse_bool_env_var(Some(text), true), "{:?}", text);
        assert!(!parse_bool_env_var(Some(text), false), "{:?}", text);
    }
    assert!(parse_bool_env_var(None, true));
    assert!(!parse_bool_env_var(None, false));
}

#[test]
fn maintenance_is_on_unless_switched_off() {
    assert_eq!(
        maintenance_flags(None, None),
        MaintenanceFlags { enable_heal: true, enable_scanner: true }
    );
    assert_eq!(
        maintenance_flags(Some("false"), Some("true")),
        MaintenanceFlags { enable_heal: false, enable_scanner: true }
    );
    assert_eq!(
        maintenance_flags(Some("0"), Some("0")),
        MaintenanceFlags { enable_heal: false, enable_scanner: false }
    );
    assert_eq!(
        maintenance_flags(Some("garbage"), Some("off")),
        MaintenanceFlags { enable_heal: true, enable_scanner: false }
    );
    assert_eq!(ENABLE_SCANNER, "NEUBULAFX_ENABLE_SCANNER");
    assert_eq!(ENABLE_HEAL, "NEUBULAFX_ENABLE_HEAL");
}
