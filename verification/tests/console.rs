use nebulafx::console::{
    answer_config_request, connection_label, effective_scheme, get_console_config_from_env,
    host_for_url, init_console_cfg, is_console_path, origin, parse_cors_origins,
    parse_strict_bool, raw_host, release_version, BuildInfo, ConsoleConfig, ConsoleEnvironment,
    ConsoleError, ConsoleSettings, CorsOrigins, CorsPolicy, HealthReport, HealthStatus,
    HostAddress, ParsedAddress, ADMIN_PREFIX, CONSOLE_PREFIX, HEALTH_SERVICE_NAME,
    STATUS_INTERNAL_SERVER_ERROR, STATUS_OK,
};
use nebulafx::singleton::GlobalSingleton;

#[test]
fn console_paths() {
    assert_eq!(CONSOLE_PREFIX, "/nebulafx/console");
    assert!(is_console_path("/nebulafx/console"));
    assert!(is_console_path("/nebulafx/console/config.json"));
    assert!(is_console_path("/nebulafx/console-extra"));
    assert!(!is_console_path("/nebulafx/consol"));
    assert!(!is_console_path("/nebulafx/admin/v3"));
    assert!(!is_console_path(""));
    assert!(!is_console_path("/"));
    assert!(!is_console_path("x/nebulafx/console"));
    assert!(!is_console_path("/NEBULAFX/console"));
}

#[test]
fn new_console_config_spells_out_the_endpoints() {
    let config = ConsoleConfig::new("192.168.1.5", 9000, "1.2.3", "2025-01-02T03:04:05Z");
    assert_eq!(config.port, 9000);
    assert_eq!(config.api.base_url, "http://192.168.1.5:9000//nebulafx/admin/v3");
    assert_eq!(config.s3.endpoint, "http://192.168.1.5:9000");
    assert_eq!(config.s3.region, "cn-east-1");
    assert_eq!(config.release.version, "1.2.3");
    assert_eq!(config.release.date, "2025-01-02T03:04:05Z");
    assert_eq!(config.doc, "https://nebulafx.com/docs/");
    assert_eq!(config.version(), "1.2.3");
    assert_eq!(config.doc(), "https://nebulafx.com/docs/");
    assert_eq!(ADMIN_PREFIX, "/nebulafx/admin/v3");
}

#[test]
fn config_as_a_request_sees_it() {
    let config = ConsoleConfig::new("10.0.0.1", 9001, "@abc123", "2025-01-02");
    let seen = config.for_request("https", "storage.example.com");
    assert_eq!(seen.api.base_url, "https://storage.example.com:9001/nebulafx/admin/v3");
    assert_eq!(seen.s3.endpoint, "https://storage.example.com:9001");
    assert_eq!(seen.port, 9001);
    assert_eq!(seen.s3.region, config.s3.region);
    assert_eq!(seen.release, config.release);
    assert_eq!(seen.doc, config.doc);
    // the stored configuration is untouched
    assert_eq!(config.s3.endpoint, "http://10.0.0.1:9001");
}

#[test]
fn origin_is_scheme_host_port() {
    assert_eq!(origin("http", "localhost", 80), "http://localhost:80");
    assert_eq!(origin("https", "[::1]", 65535), "https://[::1]:65535");
    assert_eq!(origin("", "", 0), "://:0");
}

#[test]
fn version_line() {
    let config = ConsoleConfig::new("127.0.0.1", 9000, "@@abc123", "2025-01-02");
    assert_eq!(
        config.version_info("1.85.0", "x86_64-unknown-linux-gnu"),
        "RELEASE.2025-01-02@abc123 (rust 1.85.0 x86_64-unknown-linux-gnu)"
    );
    let config = ConsoleConfig::new("127.0.0.1", 9000, "1.0.0", "d");
    assert_eq!(config.version_info("r", "t"), "RELEASE.d@1.0.0 (rust r t)");
}

#[test]
fn release_version_prefers_tag_then_commit_then_package() {
    assert_eq!(release_version("v1.0", "abc", "0.1.0"), "v1.0");
    assert_eq!(release_version("", "abc", "0.1.0"), "@abc");
    assert_eq!(release_version("", "", "0.1.0"), "0.1.0");
    assert_eq!(release_version("", "", ""), "");
}

#[test]
fn console_slot_is_filled_once() {
    let build = BuildInfo {
        tag: String::new(),
        short_commit: "deadbee".to_string(),
        package_version: "0.1.0".to_string(),
        commit_date: "2025-02-03".to_string(),
    };
    let mut slot: GlobalSingleton<ConsoleConfig> = GlobalSingleton::new();
    assert_eq!(
        answer_config_request(&slot, "http", "h"),
        Err(ConsoleError::NotInitialized)
    );
    init_console_cfg(&mut slot, "10.1.2.3", 9000, &build);
    let first = slot.get().unwrap().clone();
    assert_eq!(first, ConsoleConfig::new("10.1.2.3", 9000, "@deadbee", "2025-02-03"));
    init_console_cfg(&mut slot, "10.9.9.9", 1234, &build);
    assert_eq!(slot.get().unwrap(), &first);
    let answer = answer_config_request(&slot, "https", "example.org").unwrap();
    assert_eq!(answer.s3.endpoint, "https://example.org:9000");
    assert_eq!(answer.api.base_url, "https://example.org:9000/nebulafx/admin/v3");
    assert_eq!(answer.release.version, "@deadbee");
}

#[test]
fn console_error_is_a_server_error() {
    assert_eq!(ConsoleError::NotInitialized.status(), 500);
    assert_eq!(STATUS_INTERNAL_SERVER_ERROR, 500);
    assert_eq!(STATUS_OK, 200);
    assert_eq!(ConsoleError::NotInitialized.message(), "Console configuration not initialized");
}

#[test]
fn private_addresses() {
    assert!(HostAddress::V4(10, 0, 0, 1).is_private());
    assert!(HostAddress::V4(10, 255, 255, 255).is_private());
    assert!(HostAddress::V4(172, 16, 0, 1).is_private());
    assert!(HostAddress::V4(172, 31, 255, 255).is_private());
    assert!(!HostAddress::V4(172, 15, 0, 1).is_private());
    assert!(!HostAddress::V4(172, 32, 0, 1).is_private());
    assert!(HostAddress::V4(192, 168, 0, 1).is_private());
    assert!(!HostAddress::V4(192, 169, 0, 1).is_private());
    assert!(!HostAddress::V4(8, 8, 8, 8).is_private());
    assert!(!HostAddress::V4(11, 0, 0, 1).is_private());
    assert!(!HostAddress::V6.is_private());
    let mut private = 0u32;
    for a in 0..=255u8 {
        for b in 0..=255u8 {
            if HostAddress::V4(a, b, 3, 4).is_private() {
                private += 1;
            }
        }
    }
    // a /8, sixteen /16 and one /16
    assert_eq!(private, 256 + 16 + 1);
}

#[test]
fn scheme_and_host_of_a_request() {
    assert_eq!(effective_scheme(Some("https"), Some("http")), "https");
    assert_eq!(effective_scheme(None, Some("https")), "https");
    assert_eq!(effective_scheme(None, None), "http");
    assert_eq!(effective_scheme(Some("ws"), None), "ws");
    assert_eq!(raw_host(Some("uri.example"), "header.example"), "uri.example");
    assert_eq!(raw_host(None, "header.example"), "header.example");
}

#[test]
fn host_for_url_brackets_v6_and_strips_ports_of_names() {
    let v4 = Some(ParsedAddress { ip: "192.168.1.1".to_string(), is_v6: false });
    let v6 = Some(ParsedAddress { ip: "::1".to_string(), is_v6: true });
    assert_eq!(host_for_url("192.168.1.1:9000", &v4), "192.168.1.1");
    assert_eq!(host_for_url("[::1]:9000", &v6), "[::1]");
    assert_eq!(host_for_url("::1", &v6), "[::1]");
    assert_eq!(host_for_url("example.com:9000", &None), "example.com");
    assert_eq!(host_for_url("example.com", &None), "example.com");
    assert_eq!(host_for_url("", &None), "");
    assert_eq!(host_for_url(":9000", &None), "");
}

fn list(items: &[&str]) -> CorsOrigins {
    CorsOrigins::List(items.iter().map(|s| s.to_string()).collect())
}

#[test]
fn cors_without_setting_admits_all_and_exposes_nothing() {
    assert_eq!(
        parse_cors_origins(None),
        CorsPolicy { origins: CorsOrigins::Any, expose_headers: false }
    );
}

#[test]
fn cors_star_admits_all() {
    assert_eq!(
        parse_cors_origins(Some(&"*".to_string())),
        CorsPolicy { origins: CorsOrigins::Any, expose_headers: true }
    );
}

#[test]
fn cors_list_is_split_and_trimmed() {
    assert_eq!(
        parse_cors_origins(Some(&" https://a.example , https://b.example ".to_string())),
        CorsPolicy {
            origins: list(&["https://a.example", "https://b.example"]),
            expose_headers: true
        }
    );
    assert_eq!(
        parse_cors_origins(Some(&"https://only.example".to_string())),
        CorsPolicy { origins: list(&["https://only.example"]), expose_headers: true }
    );
    // a star inside a list is an item like any other
    assert_eq!(
        parse_cors_origins(Some(&"*,https://a.example".to_string())),
        CorsPolicy { origins: list(&["*", "https://a.example"]), expose_headers: true }
    );
    // empty items are header values too
    assert_eq!(
        parse_cors_origins(Some(&"a,,b".to_string())),
        CorsPolicy { origins: list(&["a", "", "b"]), expose_headers: true }
    );
    assert_eq!(
        parse_cors_origins(Some(&"".to_string())),
        CorsPolicy { origins: list(&[""]), expose_headers: true }
    );
}

#[test]
fn cors_drops_items_that_are_no_header_values() {
    assert_eq!(
        parse_cors_origins(Some(&"https://a.example,bad\u{7f}origin,https://b.example".to_string())),
        CorsPolicy {
            origins: list(&["https://a.example", "https://b.example"]),
            expose_headers: true
        }
    );
    assert_eq!(
        parse_cors_origins(Some(&"bad\u{1}one,worse\u{0}two".to_string())),
        CorsPolicy { origins: CorsOrigins::Any, expose_headers: true }
    );
    // a tab inside an item is kept, characters beyond ASCII too
    assert_eq!(
        parse_cors_origins(Some(&"a\tb,héllo".to_string())),
        CorsPolicy { origins: list(&["a\tb", "héllo"]), expose_headers: true }
    );
}

#[test]
fn cors_items_agree_with_the_http_crate() {
    let candidates = [
        "https://a.example", "", " ", "a\tb", "a\nb", "a\rb", "a\u{0}b", "a\u{1f}b", "a\u{7f}b",
        "a\u{80}b", "héllo", "\u{1F600}", "~", "a b", "\u{b}",
    ];
    for item in candidates {
        let text = format!("x,{}", item);
        let trimmed = item.trim();
        let accepted = http::HeaderValue::from_str(trimmed).is_ok();
        let policy = parse_cors_origins(Some(&text));
        let expected = if accepted { list(&["x", trimmed]) } else { list(&["x"]) };
        assert_eq!(policy.origins, expected, "{:?}", item);
    }
}

#[test]
fn strict_bool_reads_true_and_false_only() {
    for text in ["true", "false", "True", "TRUE", "1", "0", "", " true", "yes", "falsee"] {
        assert_eq!(parse_strict_bool(text), text.parse::<bool>().ok(), "{:?}", text);
    }
    assert_eq!(parse_strict_bool("true"), Some(true));
    assert_eq!(parse_strict_bool("false"), Some(false));
    assert_eq!(parse_strict_bool("1"), None);
}

fn defaults() -> ConsoleSettings {
    ConsoleSettings {
        rate_limit_enable: false,
        rate_limit_rpm: 100,
        auth_timeout: 3600,
        cors_allowed_origins: "*".to_string(),
    }
}

#[test]
fn console_settings_without_environment_are_the_defaults() {
    let env = ConsoleEnvironment {
        rate_limit_enable: None,
        rate_limit_rpm: None,
        auth_timeout: None,
        cors_allowed_origins: None,
    };
    assert_eq!(get_console_config_from_env(&env, &defaults()), defaults());
}

#[test]
fn console_settings_take_what_the_environment_says() {
    let env = ConsoleEnvironment {
        rate_limit_enable: Some("true".to_string()),
        rate_limit_rpm: Some("250".to_string()),
        auth_timeout: Some("18446744073709551615".to_string()),
        cors_allowed_origins: Some("https://a.example".to_string()),
    };
    assert_eq!(
        get_console_config_from_env(&env, &defaults()),
        ConsoleSettings {
            rate_limit_enable: true,
            rate_limit_rpm: 250,
            auth_timeout: u64::MAX,
            cors_allowed_origins: "https://a.example".to_string(),
        }
    );
}

#[test]
fn console_settings_fall_back_where_the_environment_cannot_be_read() {
    let env = ConsoleEnvironment {
        rate_limit_enable: Some("yes".to_string()),
        rate_limit_rpm: Some("4294967296".to_string()),
        auth_timeout: Some("-1".to_string()),
        cors_allowed_origins: Some(String::new()),
    };
    let settings = get_console_config_from_env(&env, &defaults());
    assert_eq!(settings.rate_limit_enable, false);
    assert_eq!(settings.rate_limit_rpm, 100);
    assert_eq!(settings.auth_timeout, 3600);
    assert_eq!(settings.cors_allowed_origins, "");
    // an empty setting counts as none
    assert_eq!(
        settings.cors_policy(),
        CorsPolicy { origins: CorsOrigins::Any, expose_headers: false }
    );
    assert_eq!(
        defaults().cors_policy(),
        CorsPolicy { origins: CorsOrigins::Any, expose_headers: true }
    );
}

#[test]
fn health_is_degraded_when_storage_or_identity_is_down() {
    assert_eq!(
        HealthReport::health_check(true, true),
        HealthReport { status: HealthStatus::Healthy, storage_connected: true, iam_connected: true }
    );
    assert_eq!(HealthReport::health_check(false, true).status, HealthStatus::Degraded);
    assert_eq!(HealthReport::health_check(true, false).status, HealthStatus::Degraded);
    assert_eq!(HealthReport::health_check(false, false).status, HealthStatus::Degraded);
    assert_eq!(HealthReport::health_check(true, true).status_label(), "ok");
    assert_eq!(HealthReport::health_check(false, true).status_label(), "degraded");
    assert!(!HealthReport::health_check(false, true).storage_connected);
    assert!(HealthReport::health_check(false, true).iam_connected);
    assert_eq!(connection_label(true), "connected");
    assert_eq!(connection_label(false), "disconnected");
    assert_eq!(HEALTH_SERVICE_NAME, "nebulafx-console");
}
