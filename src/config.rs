//! Static configuration of the agent: platform paths, intervals and URLs.
use vstd::prelude::*;
use crate::runtime_config::RuntimeConfig;
use crate::text::{concat, to_owned_text};

verus! {

/// Default interval for collecting and submitting metrics, in seconds.
pub const DEFAULT_METRICS_INTERVAL_SECS: u64 = 60;

/// Default interval for checking the agent's status with the backend, in seconds.
pub const DEFAULT_STATUS_CHECK_INTERVAL_SECS: u64 = 60;

/// Default interval for polling enrollment status while waiting for approval, in seconds.
pub const DEFAULT_ENROLLMENT_POLL_INTERVAL_SECS: u64 = 30;

/// Default interval between heartbeats, in seconds.
pub const DEFAULT_HEARTBEAT_INTERVAL_SECS: u64 = 60;

/// Default interval between release-feed checks, in seconds (six hours).
pub const DEFAULT_UPDATE_CHECK_INTERVAL_SECS: u64 = 21600;

/// The operating-system family the agent runs on; it decides paths.
#[derive(Debug, Clone, Copy, PartialEq, Eq, Structural)]
pub enum Platform {
    Windows,
    MacOs,
    Linux,
}

/// Path separator of the platform.
pub open spec fn separator_of(p: Platform) -> Seq<char> {
    if p is Windows { "\\"@ } else { "/"@ }
}

/// `name` inside directory `dir`, as `Path::join` builds it for a relative name.
pub open spec fn joined(dir: Seq<char>, name: Seq<char>, p: Platform) -> Seq<char> {
    if dir.len() == 0 {
        name
    } else if dir.last() == separator_of(p)[0] || dir.last() == '/' {
        dir + name
    } else {
        dir + separator_of(p) + name
    }
}

/// Joins a relative file name onto a directory.
pub fn join_path(dir: &str, name: &str, platform: Platform) -> (r: String)
    ensures
        r@ == joined(dir@, name@, platform),
{
    proof {
        reveal_strlit("\\");
        reveal_strlit("/");
    }
    let n = dir.unicode_len();
    if n == 0 {
        return to_owned_text(name);
    }
    let sep: &str = match platform {
        Platform::Windows => "\\",
        _ => "/",
    };
    let last = dir.get_char(n - 1);
    if last == sep.get_char(0) || last == '/' {
        concat(dir, name)
    } else {
        let with_sep = concat(dir, sep);
        concat(with_sep.as_str(), name)
    }
}

/// The platform's default data directory; `user_data_dir` is the per-user
/// application-data directory, when one is known.
pub open spec fn default_data_dir_spec(p: Platform, user_data_dir: Option<Seq<char>>) -> Seq<char> {
    match p {
        Platform::Windows => "C:\\ProgramData\\RMM"@,
        Platform::MacOs => match user_data_dir {
            Some(d) => joined(d, "RMM"@, p),
            None => "/tmp/RMM"@,
        },
        Platform::Linux => "/var/lib/rmm"@,
    }
}

/// The platform's default data directory.
pub fn default_data_dir(platform: Platform, user_data_dir: Option<&str>) -> (r: String)
    ensures
        r@ == default_data_dir_spec(platform, match user_data_dir { Some(d) => Some(d@), None => None }),
{
    match platform {
        Platform::Windows => to_owned_text("C:\\ProgramData\\RMM"),
        Platform::MacOs => match user_data_dir {
            Some(d) => join_path(d, "RMM", platform),
            None => to_owned_text("/tmp/RMM"),
        },
        Platform::Linux => to_owned_text("/var/lib/rmm"),
    }
}

/// Application configuration.
#[derive(Debug)]
pub struct Config {
    /// Base URL of the management backend.
    pub base_url: String,
    /// Directory holding the agent's files.
    pub data_dir: String,
    /// Credential file.
    pub key_file: String,
    /// Log file.
    pub log_file: String,
    /// Metrics interval in seconds.
    pub metrics_interval: u64,
    /// Status check interval in seconds.
    pub status_check_interval: u64,
    /// Enrollment poll interval in seconds.
    pub enrollment_poll_interval: u64,
    /// Heartbeat interval in seconds.
    pub heartbeat_interval: u64,
    /// Update check interval in seconds.
    pub update_check_interval: u64,
    /// Whether automatic updates are disabled.
    pub skip_updates: bool,
    /// Base URL of the local metrics daemon.
    pub netdata_url: String,
    /// Platform the paths were built for.
    pub platform: Platform,
}

/// Base URL placeholder that packaging replaces.
pub open spec fn default_base_url_spec() -> Seq<char> {
    "{BASE_URL}"@
}

/// Default base URL of the metrics daemon.
pub open spec fn default_netdata_url_spec() -> Seq<char> {
    "http://127.0.0.1:19999"@
}

/// Base URL placeholder that packaging replaces.
pub fn default_base_url() -> (r: &'static str)
    ensures
        r@ == default_base_url_spec(),
{
    "{BASE_URL}"
}

/// Default base URL of the metrics daemon.
pub fn default_netdata_url() -> (r: &'static str)
    ensures
        r@ == default_netdata_url_spec(),
{
    "http://127.0.0.1:19999"
}

impl Config {
    /// The configuration's paths all lie in its data directory.
    pub open spec fn wf(&self) -> bool {
        &&& self.key_file@ == joined(self.data_dir@, "agent.key"@, self.platform)
        &&& self.log_file@ == joined(self.data_dir@, "agent.log"@, self.platform)
    }

    /// Default configuration with a given backend URL and data directory.
    pub fn new(base_url: String, platform: Platform, data_dir: &str) -> (r: Config)
        ensures
            r.wf(),
            r.base_url@ == base_url@,
            r.data_dir@ == data_dir@,
            r.platform == platform,
            r.metrics_interval == DEFAULT_METRICS_INTERVAL_SECS,
            r.status_check_interval == DEFAULT_STATUS_CHECK_INTERVAL_SECS,
            r.enrollment_poll_interval == DEFAULT_ENROLLMENT_POLL_INTERVAL_SECS,
            r.heartbeat_interval == DEFAULT_HEARTBEAT_INTERVAL_SECS,
            r.update_check_interval == DEFAULT_UPDATE_CHECK_INTERVAL_SECS,
            !r.skip_updates,
            r.netdata_url@ == default_netdata_url_spec(),
    {
        Config {
            base_url,
            data_dir: to_owned_text(data_dir),
            key_file: join_path(data_dir, "agent.key", platform),
            log_file: join_path(data_dir, "agent.log", platform),
            metrics_interval: DEFAULT_METRICS_INTERVAL_SECS,
            status_check_interval: DEFAULT_STATUS_CHECK_INTERVAL_SECS,
            enrollment_poll_interval: DEFAULT_ENROLLMENT_POLL_INTERVAL_SECS,
            heartbeat_interval: DEFAULT_HEARTBEAT_INTERVAL_SECS,
            update_check_interval: DEFAULT_UPDATE_CHECK_INTERVAL_SECS,
            skip_updates: false,
            netdata_url: to_owned_text(default_netdata_url()),
            platform,
        }
    }

    /// Default configuration with the runtime overrides applied.
    pub fn with_runtime_config(runtime: &RuntimeConfig, platform: Platform, data_dir: &str) -> (r: Config)
        ensures
            r.wf(),
            r.data_dir@ == data_dir@,
            r.platform == platform,
            r.base_url@ == runtime.effective_server_url_spec(default_base_url_spec()),
            r.netdata_url@ == runtime.effective_netdata_url_spec(default_netdata_url_spec()),
            r.metrics_interval == runtime.effective_metrics_interval_spec(DEFAULT_METRICS_INTERVAL_SECS),
            r.status_check_interval == DEFAULT_STATUS_CHECK_INTERVAL_SECS,
            r.enrollment_poll_interval == DEFAULT_ENROLLMENT_POLL_INTERVAL_SECS,
            r.heartbeat_interval == DEFAULT_HEARTBEAT_INTERVAL_SECS,
            r.update_check_interval == DEFAULT_UPDATE_CHECK_INTERVAL_SECS,
            !r.skip_updates,
    {
        let mut config = Config::new(to_owned_text(default_base_url()), platform, data_dir);
        config.base_url = runtime.effective_server_url(default_base_url());
        config.netdata_url = runtime.effective_netdata_url(default_netdata_url());
        config.metrics_interval = runtime.effective_metrics_interval(config.metrics_interval);
        config
    }
}

} // verus!
