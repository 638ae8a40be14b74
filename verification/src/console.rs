//! The console: what it tells a browser about the server's endpoints, its
//! settings, its cross-origin policy, and its health report.

use crate::singleton::GlobalSingleton;
use crate::text::{
    decimal, has_prefix, parse_unsigned, same_text, split, strip_leading, text_before, to_decimal,
    trim, trimmed, unsigned_of, without_leading, before_first, pieces, texts,
};
use vstd::prelude::*;
use vstd::string::*;

verus! {

/// The path under which the console is served.
pub const CONSOLE_PREFIX: &'static str = "/nebulafx/console";

/// The path of the admin interface.
pub const ADMIN_PREFIX: &'static str = "/nebulafx/admin/v3";

/// The region that the console reports.
pub const CONSOLE_REGION: &'static str = "cn-east-1";

/// Where the documentation is.
pub const DOCUMENTATION_URL: &'static str = "https://nebulafx.com/docs/";

/// Whether a request path belongs to the console: whether it begins with
/// the console prefix.
pub fn is_console_path(path: &str) -> (b: bool)
    ensures
        b == CONSOLE_PREFIX@.is_prefix_of(path@),
{
    has_prefix(path, CONSOLE_PREFIX)
}

/// The admin interface as the console reports it.
#[derive(Clone, Debug, PartialEq, Eq)]
pub struct Api {
    pub base_url: String,
}

/// The object interface as the console reports it.
#[derive(Clone, Debug, PartialEq, Eq)]
pub struct S3 {
    pub endpoint: String,
    pub region: String,
}

/// The release that is running.
#[derive(Clone, Debug, PartialEq, Eq)]
pub struct Release {
    pub version: String,
    pub date: String,
}

/// What the console tells a browser about the server.
#[derive(Clone, Debug, PartialEq, Eq)]
pub struct ConsoleConfig {
    pub port: u16,
    pub api: Api,
    pub s3: S3,
    pub release: Release,
    pub doc: String,
}

/// What a console configuration says.
pub struct ConsoleConfigView {
    pub port: u16,
    pub base_url: Seq<char>,
    pub endpoint: Seq<char>,
    pub region: Seq<char>,
    pub version: Seq<char>,
    pub date: Seq<char>,
    pub doc: Seq<char>,
}

impl View for ConsoleConfig {
    type V = ConsoleConfigView;

    open spec fn view(&self) -> ConsoleConfigView {
        ConsoleConfigView {
            port: self.port,
            base_url: self.api.base_url@,
            endpoint: self.s3.endpoint@,
            region: self.s3.region@,
            version: self.release.version@,
            date: self.release.date@,
            doc: self.doc@,
        }
    }
}

/// The address of a server: `scheme://host:port`.
pub open spec fn origin_of(scheme: Seq<char>, host: Seq<char>, port: u16) -> Seq<char> {
    scheme + "://"@ + host + ":"@ + decimal(port as nat)
}

/// The address of a server: `scheme://host:port`.
pub fn origin(scheme: &str, host: &str, port: u16) -> (url: String)
    ensures
        url@ == origin_of(scheme@, host@, port),
{
    let digits = to_decimal(port as u64);
    let mut url = String::from_str(scheme);
    url.append("://");
    url.append(host);
    url.append(":");
    url.append(digits.as_str());
    url
}

impl ConsoleConfigView {
    /// The configuration of a server at a local address. The admin URL is
    /// the address, a slash, and the admin prefix.
    pub open spec fn initial(
        local_ip: Seq<char>,
        port: u16,
        version: Seq<char>,
        date: Seq<char>,
    ) -> ConsoleConfigView {
        ConsoleConfigView {
            port,
            base_url: origin_of("http"@, local_ip, port) + "/"@ + ADMIN_PREFIX@,
            endpoint: origin_of("http"@, local_ip, port),
            region: CONSOLE_REGION@,
            version,
            date,
            doc: DOCUMENTATION_URL@,
        }
    }

    /// The configuration as one request sees it: the endpoints are those
    /// of the address that the request came by, on the configured port.
    pub open spec fn for_request(self, scheme: Seq<char>, host: Seq<char>) -> ConsoleConfigView {
        ConsoleConfigView {
            base_url: origin_of(scheme, host, self.port) + ADMIN_PREFIX@,
            endpoint: origin_of(scheme, host, self.port),
            ..self
        }
    }

    /// The version line: `RELEASE.date@version (rust compiler target)`,
    /// the version without any `@` at its front.
    pub open spec fn version_info(self, rust_version: Seq<char>, build_target: Seq<char>) -> Seq<
        char,
    > {
        "RELEASE."@ + self.date + "@"@ + without_leading(self.version, '@') + " (rust "@
            + rust_version + " "@ + build_target + ")"@
    }
}

impl ConsoleConfig {
    /// The configuration of a server at a local address.
    pub fn new(local_ip: &str, port: u16, version: &str, date: &str) -> (config: Self)
        ensures
            config@ == ConsoleConfigView::initial(local_ip@, port, version@, date@),
    {
        let endpoint = origin("http", local_ip, port);
        let mut base_url = endpoint.clone();
        base_url.append("/");
        base_url.append(ADMIN_PREFIX);
        ConsoleConfig {
            port,
            api: Api { base_url },
            s3: S3 { endpoint, region: String::from_str(CONSOLE_REGION) },
            release: Release { version: String::from_str(version), date: String::from_str(date) },
            doc: String::from_str(DOCUMENTATION_URL),
        }
    }

    /// The configuration as one request sees it.
    pub fn for_request(&self, scheme: &str, host: &str) -> (config: Self)
        ensures
            config@ == self@.for_request(scheme@, host@),
    {
        let endpoint = origin(scheme, host, self.port);
        let mut base_url = endpoint.clone();
        base_url.append(ADMIN_PREFIX);
        ConsoleConfig {
            port: self.port,
            api: Api { base_url },
            s3: S3 { endpoint, region: self.s3.region.clone() },
            release: Release {
                version: self.release.version.clone(),
                date: self.release.date.clone(),
            },
            doc: self.doc.clone(),
        }
    }

    /// The version line, for a compiler version and a build target.
    pub fn version_info(&self, rust_version: &str, build_target: &str) -> (line: String)
        ensures
            line@ == self@.version_info(rust_version@, build_target@),
    {
        let version = strip_leading(self.release.version.as_str(), '@');
        let mut line = String::from_str("RELEASE.");
        line.append(self.release.date.as_str());
        line.append("@");
        line.append(version.as_str());
        line.append(" (rust ");
        line.append(rust_version);
        line.append(" ");
        line.append(build_target);
        line.append(")");
        line
    }

    /// The version of the release.
    pub fn version(&self) -> (text: String)
        ensures
            text@ == self@.version,
    {
        self.release.version.clone()
    }

    /// Where the documentation is.
    pub fn doc(&self) -> (text: String)
        ensures
            text@ == self@.doc,
    {
        self.doc.clone()
    }
}

/// The version that a build reports: its tag where it has one, else `@`
/// and its short commit where it has one, else the package version.
pub open spec fn release_version_of(
    tag: Seq<char>,
    short_commit: Seq<char>,
    package_version: Seq<char>,
) -> Seq<char> {
    if tag.len() > 0 {
        tag
    } else if short_commit.len() > 0 {
        "@"@ + short_commit
    } else {
        package_version
    }
}

/// The version that a build reports.
pub fn release_version(tag: &str, short_commit: &str, package_version: &str) -> (version: String)
    ensures
        version@ == release_version_of(tag@, short_commit@, package_version@),
{
    if !tag.is_empty() {
        String::from_str(tag)
    } else if !short_commit.is_empty() {
        let mut version = String::from_str("@");
        version.append(short_commit);
        version
    } else {
        String::from_str(package_version)
    }
}

/// What a build knows of itself.
#[derive(Clone, Debug, PartialEq, Eq)]
pub struct BuildInfo {
    pub tag: String,
    pub short_commit: String,
    pub package_version: String,
    pub commit_date: String,
}

/// Fills the console's slot once: an empty slot gets the configuration of
/// the server at the local address, with the version that the build
/// reports; a filled slot is left as it is.
pub fn init_console_cfg(
    slot: &mut GlobalSingleton<ConsoleConfig>,
    local_ip: &str,
    port: u16,
    build: &BuildInfo,
)
    ensures
        old(slot)@ is Some ==> final(slot)@ == old(slot)@,
        old(slot)@ is None ==> (final(slot)@ matches Some(config) && config@
            == ConsoleConfigView::initial(
            local_ip@,
            port,
            release_version_of(build.tag@, build.short_commit@, build.package_version@),
            build.commit_date@,
        )),
{
    if !slot.is_set() {
        let version = release_version(
            build.tag.as_str(),
            build.short_commit.as_str(),
            build.package_version.as_str(),
        );
        let config = ConsoleConfig::new(local_ip, port, version.as_str(), build.commit_date.as_str());
        let _ = slot.set(config);
    }
}

/// An internet address, as far as the console looks at one.
#[derive(Clone, Copy, Debug, PartialEq, Eq, Structural)]
pub enum HostAddress {
    V4(u8, u8, u8, u8),
    V6,
}

impl HostAddress {
    /// Whether an address is in a private range: `10.0.0.0/8`,
    /// `172.16.0.0/12` or `192.168.0.0/16`. No address of version 6 is.
    pub open spec fn private(self) -> bool {
        match self {
            HostAddress::V4(a, b, _, _) => a == 10 || (a == 172 && 16 <= b <= 31) || (a == 192 && b
                == 168),
            HostAddress::V6 => false,
        }
    }

    /// Whether an address is in a private range.
    pub fn is_private(self) -> (b: bool)
        ensures
            b == self.private(),
    {
        match self {
            HostAddress::V4(a, b, _, _) => a == 10 || (a == 172 && (b >= 16 && b <= 31)) || (a
                == 192 && b == 168),
            HostAddress::V6 => false,
        }
    }
}

/// The scheme of a request: what the proxy forwarded, else the scheme of
/// the request's URI, else `http`.
pub fn effective_scheme<'a>(forwarded_proto: Option<&'a str>, uri_scheme: Option<&'a str>) -> (scheme:
    &'a str)
    ensures
        scheme@ == match forwarded_proto {
            Some(proto) => proto@,
            None => match uri_scheme {
                Some(s) => s@,
                None => "http"@,
            },
        },
{
    match forwarded_proto {
        Some(proto) => proto,
        None => match uri_scheme {
            Some(s) => s,
            None => "http",
        },
    }
}

/// The host of a request: that of the request's URI, else that of its
/// host header.
pub fn raw_host<'a>(uri_host: Option<&'a str>, host_header: &'a str) -> (host: &'a str)
    ensures
        host@ == match uri_host {
            Some(h) => h@,
            None => host_header@,
        },
{
    match uri_host {
        Some(h) => h,
        None => host_header,
    }
}

/// An address that a host was read as: its text without a port, and
/// whether it is of version 6.
#[derive(Clone, Debug, PartialEq, Eq)]
pub struct ParsedAddress {
    pub ip: String,
    pub is_v6: bool,
}

/// The host to put into a URL. An address of version 6 goes in square
/// brackets, one of version 4 as it is; a name loses its port, that is
/// what follows its first colon.
pub open spec fn url_host(host: Seq<char>, address: Option<ParsedAddress>) -> Seq<char> {
    match address {
        Some(a) => if a.is_v6 {
            "["@ + a.ip@ + "]"@
        } else {
            a.ip@
        },
        None => before_first(host, ':'),
    }
}

/// The host to put into a URL, for a host and the address that it was
/// read as, if it was read as one.
pub fn host_for_url(host: &str, address: &Option<ParsedAddress>) -> (text: String)
    ensures
        text@ == url_host(host@, *address),
{
    match address {
        Some(a) => {
            if a.is_v6 {
                let mut text = String::from_str("[");
                text.append(a.ip.as_str());
                text.append("]");
                text
            } else {
                a.ip.clone()
            }
        },
        None => text_before(host, ':'),
    }
}

/// Why the console could not answer.
#[derive(Clone, Copy, Debug, PartialEq, Eq, Structural)]
pub enum ConsoleError {
    /// The console's configuration was asked for before it was set.
    NotInitialized,
}

/// The status of an answer that succeeded.
pub const STATUS_OK: u16 = 200;

/// The status of an answer that failed inside the server.
pub const STATUS_INTERNAL_SERVER_ERROR: u16 = 500;

impl ConsoleError {
    /// The status that the error is answered with.
    pub fn status(&self) -> (code: u16)
        ensures
            code == STATUS_INTERNAL_SERVER_ERROR,
    {
        STATUS_INTERNAL_SERVER_ERROR
    }

    /// The body that the error is answered with.
    pub fn message(&self) -> (text: &'static str)
        ensures
            text@ == "Console configuration not initialized"@,
    {
        "Console configuration not initialized"
    }
}

/// Answers a request for the console's configuration: the configuration
/// as the request sees it, or `NotInitialized` while the slot is empty.
pub fn answer_config_request(
    slot: &GlobalSingleton<ConsoleConfig>,
    scheme: &str,
    host: &str,
) -> (answer: Result<ConsoleConfig, ConsoleError>)
    ensures
        match slot@ {
            Some(config) => (answer matches Ok(seen) && seen@ == config@.for_request(
                scheme@,
                host@,
            )),
            None => answer == Err::<ConsoleConfig, ConsoleError>(ConsoleError::NotInitialized),
        },
{
    match slot.get() {
        Ok(config) => Ok(config.for_request(scheme, host)),
        Err(_) => Err(ConsoleError::NotInitialized),
    }
}

/// Whether a character may stand in a header value: a tab, or anything
/// from the space on but the delete character.
pub open spec fn header_char(c: char) -> bool {
    c as u32 == 9 || (c as u32 >= 32 && c as u32 != 127)
}

/// Whether a text is a header value: whether each of its characters may
/// stand in one.
pub open spec fn is_header_value(text: Seq<char>) -> bool {
    forall|i: int| 0 <= i < text.len() ==> header_char(#[trigger] text[i])
}

/// Calls `http::HeaderValue::from_str` and says whether it accepted the
/// text. It accepts a text whose bytes are each a tab or at least 32 and
/// not 127; the bytes of a character beyond ASCII are all above 127, so
/// this is a matter of the characters one by one.
#[verifier::external_body]
fn accepts_header_value(text: &str) -> (accepted: bool)
    ensures
        accepted == is_header_value(text@),
{
    http::HeaderValue::from_str(text).is_ok()
}

/// The origins that a policy admits.
#[derive(Clone, Debug, PartialEq, Eq)]
pub enum CorsOrigins {
    /// Every origin.
    Any,
    /// The origins listed.
    List(Vec<String>),
}

/// The cross-origin policy of the console. It always admits the methods
/// GET, POST, PUT, DELETE and OPTIONS, and any request header.
#[derive(Clone, Debug, PartialEq, Eq)]
pub struct CorsPolicy {
    pub origins: CorsOrigins,
    /// Whether every response header is exposed.
    pub expose_headers: bool,
}

/// What a cross-origin policy says.
pub struct CorsPolicyView {
    /// The origins listed; `None` where every origin is admitted.
    pub origins: Option<Seq<Seq<char>>>,
    pub expose_headers: bool,
}

impl View for CorsPolicy {
    type V = CorsPolicyView;

    open spec fn view(&self) -> CorsPolicyView {
        CorsPolicyView {
            origins: match self.origins {
                CorsOrigins::Any => None,
                CorsOrigins::List(list) => Some(texts(list@)),
            },
            expose_headers: self.expose_headers,
        }
    }
}

/// The items of a list that, trimmed, are header values, trimmed and in
/// their order.
pub open spec fn valid_origins(items: Seq<Seq<char>>) -> Seq<Seq<char>>
    decreases items.len(),
{
    if items.len() == 0 {
        Seq::empty()
    } else if is_header_value(trimmed(items.last())) {
        valid_origins(items.drop_last()).push(trimmed(items.last()))
    } else {
        valid_origins(items.drop_last())
    }
}

/// The policy that a setting asks for. Without a setting every origin is
/// admitted and no header is exposed. With one, every header is exposed;
/// `*` admits every origin; any other text is a list with commas between
/// its items, of which those count that are header values once trimmed;
/// where none counts, every origin is admitted.
pub open spec fn cors_policy_of(setting: Option<Seq<char>>) -> CorsPolicyView {
    match setting {
        None => CorsPolicyView { origins: None, expose_headers: false },
        Some(text) => if text == "*"@ || valid_origins(pieces(text, ',')).len() == 0 {
            CorsPolicyView { origins: None, expose_headers: true }
        } else {
            CorsPolicyView {
                origins: Some(valid_origins(pieces(text, ','))),
                expose_headers: true,
            }
        },
    }
}

/// Works out the cross-origin policy that a setting asks for.
pub fn parse_cors_origins(origins: Option<&String>) -> (policy: CorsPolicy)
    ensures
        policy@ == cors_policy_of(
            match origins {
                Some(text) => Some(text@),
                None => None,
            },
        ),
{
    let text = match origins {
        None => {
            return CorsPolicy { origins: CorsOrigins::Any, expose_headers: false };
        },
        Some(text) => text,
    };
    if same_text(text.as_str(), "*") {
        return CorsPolicy { origins: CorsOrigins::Any, expose_headers: true };
    }
    let items = split(text.as_str(), ',');
    let mut valid: Vec<String> = Vec::new();
    let mut at: usize = 0;
    proof {
        assert(texts(items@).take(0) =~= Seq::empty());
        assert(texts(valid@) =~= Seq::empty());
    }
    while at < items.len()
        invariant
            at <= items.len(),
            texts(valid@) == valid_origins(texts(items@).take(at as int)),
        decreases items.len() - at,
    {
        let item = trim(items[at].as_str());
        let ghost before = valid@;
        proof {
            assert(texts(items@).take(at + 1).drop_last() =~= texts(items@).take(at as int));
            assert(texts(items@).take(at + 1).last() == items@[at as int]@);
        }
        if accepts_header_value(item.as_str()) {
            valid.push(item);
            proof {
                assert(texts(before.push(item)) =~= texts(before).push(item@));
            }
        }
        at = at + 1;
    }
    proof {
        assert(texts(items@).take(items@.len() as int) =~= texts(items@));
    }
    if valid.len() == 0 {
        CorsPolicy { origins: CorsOrigins::Any, expose_headers: true }
    } else {
        CorsPolicy { origins: CorsOrigins::List(valid), expose_headers: true }
    }
}

/// What `str::parse` makes of a text as a `bool`: `true` and `false` are
/// read, nothing else is.
pub open spec fn strict_bool(text: Seq<char>) -> Option<bool> {
    if text == "true"@ {
        Some(true)
    } else if text == "false"@ {
        Some(false)
    } else {
        None
    }
}

/// Reads `true` or `false`.
pub fn parse_strict_bool(text: &str) -> (value: Option<bool>)
    ensures
        value == strict_bool(text@),
{
    if same_text(text, "true") {
        Some(true)
    } else if same_text(text, "false") {
        proof {
            reveal_strlit("true");
            reveal_strlit("false");
        }
        Some(false)
    } else {
        None
    }
}

/// The settings of the console.
#[derive(Clone, Debug, PartialEq, Eq)]
pub struct ConsoleSettings {
    pub rate_limit_enable: bool,
    /// Requests per minute.
    pub rate_limit_rpm: u32,
    /// Seconds.
    pub auth_timeout: u64,
    pub cors_allowed_origins: String,
}

/// The settings of the console as the environment holds them: the text of
/// each variable that is set.
#[derive(Clone, Debug, PartialEq, Eq)]
pub struct ConsoleEnvironment {
    pub rate_limit_enable: Option<String>,
    pub rate_limit_rpm: Option<String>,
    pub auth_timeout: Option<String>,
    pub cors_allowed_origins: Option<String>,
}

/// What the console's settings say.
pub struct ConsoleSettingsView {
    pub rate_limit_enable: bool,
    pub rate_limit_rpm: u32,
    pub auth_timeout: u64,
    pub cors_allowed_origins: Seq<char>,
}

impl View for ConsoleSettings {
    type V = ConsoleSettingsView;

    open spec fn view(&self) -> ConsoleSettingsView {
        ConsoleSettingsView {
            rate_limit_enable: self.rate_limit_enable,
            rate_limit_rpm: self.rate_limit_rpm,
            auth_timeout: self.auth_timeout,
            cors_allowed_origins: self.cors_allowed_origins@,
        }
    }
}

/// The settings that an environment gives over defaults: each variable
/// that is set and can be read replaces its default.
pub open spec fn console_settings_of(
    env: ConsoleEnvironment,
    defaults: ConsoleSettingsView,
) -> ConsoleSettingsView {
    ConsoleSettingsView {
        rate_limit_enable: match env.rate_limit_enable {
            Some(text) => match strict_bool(text@) {
                Some(b) => b,
                None => defaults.rate_limit_enable,
            },
            None => defaults.rate_limit_enable,
        },
        rate_limit_rpm: match env.rate_limit_rpm {
            Some(text) => match unsigned_of(text@, u32::MAX as nat) {
                Some(n) => n as u32,
                None => defaults.rate_limit_rpm,
            },
            None => defaults.rate_limit_rpm,
        },
        auth_timeout: match env.auth_timeout {
            Some(text) => match unsigned_of(text@, u64::MAX as nat) {
                Some(n) => n as u64,
                None => defaults.auth_timeout,
            },
            None => defaults.auth_timeout,
        },
        cors_allowed_origins: match env.cors_allowed_origins {
            Some(text) => text@,
            None => defaults.cors_allowed_origins,
        },
    }
}

/// Works out the console's settings from the environment and defaults.
pub fn get_console_config_from_env(env: &ConsoleEnvironment, defaults: &ConsoleSettings) -> (settings:
    ConsoleSettings)
    ensures
        settings@ == console_settings_of(*env, defaults@),
{
    let rate_limit_enable = match &env.rate_limit_enable {
        Some(text) => match parse_strict_bool(text.as_str()) {
            Some(b) => b,
            None => defaults.rate_limit_enable,
        },
        None => defaults.rate_limit_enable,
    };
    let rate_limit_rpm = match &env.rate_limit_rpm {
        Some(text) => match parse_unsigned(text.as_str(), u32::MAX as u64) {
            Some(n) => n as u32,
            None => defaults.rate_limit_rpm,
        },
        None => defaults.rate_limit_rpm,
    };
    let auth_timeout = match &env.auth_timeout {
        Some(text) => match parse_unsigned(text.as_str(), u64::MAX) {
            Some(n) => n,
            None => defaults.auth_timeout,
        },
        None => defaults.auth_timeout,
    };
    let cors_allowed_origins = match &env.cors_allowed_origins {
        Some(text) => text.clone(),
        None => defaults.cors_allowed_origins.clone(),
    };
    ConsoleSettings { rate_limit_enable, rate_limit_rpm, auth_timeout, cors_allowed_origins }
}

impl ConsoleSettings {
    /// The cross-origin policy of the settings: an empty setting counts as
    /// none.
    pub fn cors_policy(&self) -> (policy: CorsPolicy)
        ensures
            policy@ == cors_policy_of(
                if self@.cors_allowed_origins.len() == 0 {
                    None
                } else {
                    Some(self@.cors_allowed_origins)
                },
            ),
    {
        if self.cors_allowed_origins.as_str().is_empty() {
            parse_cors_origins(None)
        } else {
            parse_cors_origins(Some(&self.cors_allowed_origins))
        }
    }
}

/// Whether the service is fully up.
#[derive(Clone, Copy, Debug, PartialEq, Eq, Structural)]
pub enum HealthStatus {
    Healthy,
    Degraded,
}

/// The name under which the console reports its health.
pub const HEALTH_SERVICE_NAME: &'static str = "nebulafx-console";

/// What the health check found.
#[derive(Clone, Copy, Debug, PartialEq, Eq, Structural)]
pub struct HealthReport {
    pub status: HealthStatus,
    pub storage_connected: bool,
    pub iam_connected: bool,
}

impl HealthReport {
    /// The report for what could be reached: the status is `Degraded` when
    /// the storage layer or the identity subsystem could not be reached,
    /// and `Healthy` otherwise.
    pub open spec fn assessed(storage_connected: bool, iam_connected: bool) -> HealthReport {
        HealthReport {
            status: if storage_connected && iam_connected {
                HealthStatus::Healthy
            } else {
                HealthStatus::Degraded
            },
            storage_connected,
            iam_connected,
        }
    }

    /// Makes the report for what could be reached.
    pub fn health_check(storage_connected: bool, iam_connected: bool) -> (report: HealthReport)
        ensures
            report == HealthReport::assessed(storage_connected, iam_connected),
    {
        HealthReport {
            status: if storage_connected && iam_connected {
                HealthStatus::Healthy
            } else {
                HealthStatus::Degraded
            },
            storage_connected,
            iam_connected,
        }
    }

    /// The word for the status: `ok` or `degraded`.
    pub fn status_label(&self) -> (label: &'static str)
        ensures
            label@ == match self.status {
                HealthStatus::Healthy => "ok"@,
                HealthStatus::Degraded => "degraded"@,
            },
    {
        match self.status {
            HealthStatus::Healthy => "ok",
            HealthStatus::Degraded => "degraded",
        }
    }
}

/// The word for a subsystem that could or could not be reached.
pub fn connection_label(connected: bool) -> (label: &'static str)
    ensures
        label@ == if connected {
            "connected"@
        } else {
            "disconnected"@
        },
{
    if connected {
        "connected"
    } else {
        "disconnected"
    }
}

} // verus!
