//! The configuration model and its validation.
//!
//! Loading and merging configuration sources (files, the environment) is the
//! surrounding binary's job; this module holds the validated shape the rest
//! of the library works from, the defaults, and the validation that must
//! fail fast before the session loop starts.

use vstd::prelude::*;

verus! {

broadcast use vstd::std_specs::vec::group_vec_axioms, vstd::seq::group_seq_axioms;

/// How the server talks to its client.
#[derive(PartialEq, Eq, Structural, Clone, Copy, Debug)]
pub enum TransportType {
    Stdio,
    Websocket,
}

/// How the client authenticates against the upstream API.
#[derive(PartialEq, Eq, Structural, Clone, Copy, Debug)]
pub enum AuthType {
    ApiKey,
    OAuth2,
    Session,
}

/// How log lines are formatted.
#[derive(PartialEq, Eq, Structural, Clone, Copy, Debug)]
pub enum LogFormat {
    Json,
    Pretty,
}

/// The server's own identity and transport choice.
pub struct ServerConfig {
    pub name: String,
    pub version: String,
    pub transport: TransportType,
    pub websocket_port: Option<u16>,
}

/// The upstream API endpoint and credential.
pub struct EasyProjectConfig {
    pub base_url: String,
    pub api_version: String,
    pub auth_type: AuthType,
    pub api_key: Option<String>,
    pub api_key_header: String,
    pub client_id: Option<String>,
    pub client_secret: Option<String>,
    pub redirect_uri: Option<String>,
    pub scopes: Vec<String>,
}

/// HTTP transport settings.
pub struct HttpConfig {
    pub timeout_seconds: u64,
    pub max_retries: u32,
    pub retry_delay_seconds: u64,
    pub user_agent: String,
}

/// Rate limiter settings.
pub struct RateLimitingConfig {
    pub enabled: bool,
    pub requests_per_minute: u32,
    pub burst_size: u32,
}

/// Response cache settings, with per-entity time-to-live overrides.
pub struct CacheConfig {
    pub enabled: bool,
    pub ttl_seconds: u64,
    pub max_entries: u64,
    pub project_ttl: u64,
    pub user_ttl: u64,
    pub issue_ttl: u64,
    pub time_entry_ttl: u64,
}

/// Logging settings.
pub struct LoggingConfig {
    pub level: String,
    pub format: LogFormat,
    pub target: String,
}

/// One tool category's flags.
pub struct ProjectToolConfig {
    pub enabled: bool,
    pub include_archived: bool,
    pub default_limit: u32,
}

/// Issue tool flags.
pub struct IssueToolConfig {
    pub enabled: bool,
    pub default_limit: u32,
    pub include_attachments: bool,
    pub include_relations: bool,
}

/// User tool flags.
pub struct UserToolConfig {
    pub enabled: bool,
    pub default_limit: u32,
}

/// Time entry tool flags.
pub struct TimeEntryToolConfig {
    pub enabled: bool,
    pub default_limit: u32,
}

/// Report tool flags.
pub struct ReportToolConfig {
    pub enabled: bool,
    pub cache_ttl: u64,
}

/// Milestone tool flags.
pub struct MilestoneToolConfig {
    pub enabled: bool,
}

/// The per-category tool switches.
pub struct ToolsConfig {
    pub projects: ProjectToolConfig,
    pub issues: IssueToolConfig,
    pub users: UserToolConfig,
    pub time_entries: TimeEntryToolConfig,
    pub reports: ReportToolConfig,
    pub milestones: MilestoneToolConfig,
}

/// The whole validated configuration.
pub struct AppConfig {
    pub server: ServerConfig,
    pub easyproject: EasyProjectConfig,
    pub http: HttpConfig,
    pub rate_limiting: RateLimitingConfig,
    pub cache: CacheConfig,
    pub logging: LoggingConfig,
    pub tools: ToolsConfig,
}

/// The entity kinds the per-entity cache time-to-live table knows.
#[derive(PartialEq, Eq, Structural, Clone, Copy, Debug)]
pub enum EntityKind {
    Project,
    User,
    Issue,
    TimeEntry,
    Milestone,
}

/// Whether the URL parser accepts a text as an absolute URL.  The verdict
/// is a function of the text alone, so it has a name and nothing more: no
/// contract says which texts are accepted.
pub uninterp spec fn url_accepted(s: Seq<char>) -> bool;

/// Relies on `url::Url::parse`: true exactly when the crate accepts the
/// text as an absolute URL.
#[verifier::external_body]
fn url_parses(s: &str) -> (r: bool)
    ensures
        r == url_accepted(s@),
{
    url::Url::parse(s).is_ok()
}

/// Whether a text starts with `http://` or `https://`.
pub open spec fn spec_has_http_scheme(s: Seq<char>) -> bool {
    ("http://"@).is_prefix_of(s) || ("https://"@).is_prefix_of(s)
}

pub fn has_http_scheme_check(s: &str) -> (r: bool)
    ensures
        r == spec_has_http_scheme(s@),
{
    let chars = crate::text::str_to_chars(s);
    if chars.len() >= 7 && chars[0] == 'h' && chars[1] == 't' && chars[2] == 't' && chars[3] == 'p'
        && chars[4] == ':' && chars[5] == '/' && chars[6] == '/' {
        proof {
            reveal_strlit("http://");
            assert(("http://"@).is_prefix_of(s@)) by {
                assert(("http://"@) =~= s@.subrange(0, 7));
            }
        }
        return true;
    }
    if chars.len() >= 8 && chars[0] == 'h' && chars[1] == 't' && chars[2] == 't' && chars[3] == 'p'
        && chars[4] == 's' && chars[5] == ':' && chars[6] == '/' && chars[7] == '/' {
        proof {
            reveal_strlit("https://");
            assert(("https://"@).is_prefix_of(s@)) by {
                assert(("https://"@) =~= s@.subrange(0, 8));
            }
        }
        return true;
    }
    proof {
        reveal_strlit("http://");
        reveal_strlit("https://");
        if ("http://"@).is_prefix_of(s@) {
            assert(s@.len() >= 7);
            assert(("http://"@) == s@.subrange(0, 7));
            assert forall|i: int| 0 <= i < 7 implies s@[i] == ("http://"@)[i] by {
                assert(s@.subrange(0, 7)[i] == s@[i]);
            }
            assert(s@[0] == 'h' && s@[1] == 't' && s@[2] == 't' && s@[3] == 'p' && s@[4] == ':'
                && s@[5] == '/' && s@[6] == '/');
        }
        if ("https://"@).is_prefix_of(s@) {
            assert(s@.len() >= 8);
            assert(("https://"@) == s@.subrange(0, 8));
            assert forall|i: int| 0 <= i < 8 implies s@[i] == ("https://"@)[i] by {
                assert(s@.subrange(0, 8)[i] == s@[i]);
            }
            assert(s@[0] == 'h' && s@[1] == 't' && s@[2] == 't' && s@[3] == 'p' && s@[4] == 's'
                && s@[5] == ':' && s@[6] == '/' && s@[7] == '/');
        }
    }
    false
}

/// What validation demands of a configuration, beyond the URL parser's own
/// acceptance of the base URL.
pub open spec fn spec_config_sound(c: AppConfig) -> bool {
    &&& (c.easyproject.auth_type == AuthType::ApiKey ==> (match c.easyproject.api_key {
        Some(k) => k@.len() > 0,
        None => false,
    }))
    &&& (c.easyproject.auth_type == AuthType::OAuth2 ==> c.easyproject.client_id is Some
        && c.easyproject.client_secret is Some)
    &&& c.easyproject.auth_type != AuthType::Session
    &&& (c.server.transport == TransportType::Websocket ==> c.server.websocket_port is Some)
    &&& c.http.timeout_seconds > 0
    &&& c.http.max_retries <= 10
    &&& (c.rate_limiting.enabled ==> c.rate_limiting.requests_per_minute >= 1
        && c.rate_limiting.burst_size >= 1)
    &&& (c.cache.enabled ==> c.cache.max_entries >= 1)
}

impl AppConfig {
    /// Validates the configuration: it is accepted exactly when the base
    /// URL satisfies the URL parser, the declared authentication mode has
    /// its credential, the transport has what it needs, the timeout is
    /// positive, the retry count is sane, and the limiter and cache sizes
    /// are not degenerate.
    pub fn validate(&self) -> (r: Result<(), String>)
        ensures
            r is Ok <==> url_accepted(self.easyproject.base_url@) && spec_config_sound(*self),
    {
        if !url_parses(self.easyproject.base_url.as_str()) {
            return Err("Neplatná base_url pro EasyProject".to_owned());
        }
        match self.easyproject.auth_type {
            AuthType::ApiKey => {
                match &self.easyproject.api_key {
                    Some(k) => {
                        if k.as_str().unicode_len() == 0 {
                            return Err("API klíč je povinný pro auth_type = 'api_key'".to_owned());
                        }
                    },
                    None => {
                        return Err("API klíč je povinný pro auth_type = 'api_key'".to_owned());
                    },
                }
            },
            AuthType::OAuth2 => {
                if self.easyproject.client_id.is_none() || self.easyproject.client_secret.is_none() {
                    return Err("client_id a client_secret jsou povinné pro OAuth2".to_owned());
                }
            },
            AuthType::Session => {
                return Err("Session autentifikace zatím není podporována".to_owned());
            },
        }
        if self.server.transport == TransportType::Websocket && self.server.websocket_port.is_none() {
            return Err("websocket_port je povinný pro WebSocket transport".to_owned());
        }
        if self.http.timeout_seconds == 0 {
            return Err("timeout_seconds musí být větší než 0".to_owned());
        }
        if self.http.max_retries > 10 {
            return Err("max_retries by neměl být větší než 10".to_owned());
        }
        if self.rate_limiting.enabled && (self.rate_limiting.requests_per_minute < 1
            || self.rate_limiting.burst_size < 1) {
            return Err("requests_per_minute a burst_size musí být alespoň 1".to_owned());
        }
        if self.cache.enabled && self.cache.max_entries < 1 {
            return Err("max_entries musí být alespoň 1".to_owned());
        }
        Ok(())
    }

    /// The HTTP timeout, in seconds.
    pub fn http_timeout(&self) -> (r: u64)
        ensures
            r == self.http.timeout_seconds,
    {
        self.http.timeout_seconds
    }

    /// The delay between HTTP retries, in seconds.
    pub fn retry_delay(&self) -> (r: u64)
        ensures
            r == self.http.retry_delay_seconds,
    {
        self.http.retry_delay_seconds
    }

    /// The cache time-to-live for an entity kind, in seconds: the per-entity
    /// override where the table has one, the global default otherwise.
    pub fn cache_ttl_for_entity(&self, entity: EntityKind) -> (r: u64)
        ensures
            r == (match entity {
                EntityKind::Project => self.cache.project_ttl,
                EntityKind::User => self.cache.user_ttl,
                EntityKind::Issue => self.cache.issue_ttl,
                EntityKind::TimeEntry => self.cache.time_entry_ttl,
                EntityKind::Milestone => self.cache.ttl_seconds,
            }),
    {
        match entity {
            EntityKind::Project => self.cache.project_ttl,
            EntityKind::User => self.cache.user_ttl,
            EntityKind::Issue => self.cache.issue_ttl,
            EntityKind::TimeEntry => self.cache.time_entry_ttl,
            EntityKind::Milestone => self.cache.ttl_seconds,
        }
    }
}

impl core::default::Default for AppConfig {
    /// The built-in defaults: caching and rate limiting on, every tool
    /// category enabled, a placeholder upstream URL, no credential.
    fn default() -> (r: AppConfig)
        ensures
            r.server.name@ == "EasyProject MCP Server"@,
            r.server.version@ == "1.0.0"@,
            r.server.transport == TransportType::Stdio,
            r.easyproject.auth_type == AuthType::ApiKey,
            r.easyproject.api_key is None,
            r.http.timeout_seconds == 30,
            r.http.max_retries == 3,
            r.rate_limiting.enabled && r.rate_limiting.requests_per_minute == 60
                && r.rate_limiting.burst_size == 10,
            r.cache.enabled && r.cache.ttl_seconds == 300 && r.cache.max_entries == 1000,
            r.cache.project_ttl == 600 && r.cache.user_ttl == 1800 && r.cache.issue_ttl == 60
                && r.cache.time_entry_ttl == 30,
            r.tools.projects.enabled && r.tools.issues.enabled && r.tools.users.enabled
                && r.tools.time_entries.enabled && r.tools.reports.enabled
                && r.tools.milestones.enabled,
            r.tools.projects.default_limit == 25 && r.tools.issues.default_limit == 25
                && r.tools.users.default_limit == 25 && r.tools.time_entries.default_limit == 25,
    {
        AppConfig {
            server: ServerConfig {
                name: "EasyProject MCP Server".to_owned(),
                version: "1.0.0".to_owned(),
                transport: TransportType::Stdio,
                websocket_port: Some(8080),
            },
            easyproject: EasyProjectConfig {
                base_url: "https://your-easyproject-instance.com".to_owned(),
                api_version: "v1".to_owned(),
                auth_type: AuthType::ApiKey,
                api_key: None,
                api_key_header: "X-Redmine-API-Key".to_owned(),
                client_id: None,
                client_secret: None,
                redirect_uri: None,
                scopes: Vec::new(),
            },
            http: HttpConfig {
                timeout_seconds: 30,
                max_retries: 3,
                retry_delay_seconds: 1,
                user_agent: "EasyProject-MCP-Server/1.0.0".to_owned(),
            },
            rate_limiting: RateLimitingConfig {
                enabled: true,
                requests_per_minute: 60,
                burst_size: 10,
            },
            cache: CacheConfig {
                enabled: true,
                ttl_seconds: 300,
                max_entries: 1000,
                project_ttl: 600,
                user_ttl: 1800,
                issue_ttl: 60,
                time_entry_ttl: 30,
            },
            logging: LoggingConfig {
                level: "info".to_owned(),
                format: LogFormat::Json,
                target: "stdout".to_owned(),
            },
            tools: ToolsConfig {
                projects: ProjectToolConfig {
                    enabled: true,
                    include_archived: false,
                    default_limit: 25,
                },
                issues: IssueToolConfig {
                    enabled: true,
                    default_limit: 25,
                    include_attachments: false,
                    include_relations: false,
                },
                users: UserToolConfig { enabled: true, default_limit: 25 },
                time_entries: TimeEntryToolConfig { enabled: true, default_limit: 25 },
                reports: ReportToolConfig { enabled: true, cache_ttl: 3600 },
                milestones: MilestoneToolConfig { enabled: true },
            },
        }
    }
}

} // verus!
