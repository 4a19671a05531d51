//! Overrides that can be changed at run time and persist across restarts.
use vstd::prelude::*;
use crate::config::{joined, Platform};
use crate::text::to_owned_text;

verus! {

/// Runtime overrides; every field is optional.
#[derive(Debug)]
pub struct RuntimeConfig {
    /// Server URL override.
    pub server_url: Option<String>,
    /// Metrics daemon URL override.
    pub netdata_url: Option<String>,
    /// Metrics interval override, in seconds.
    pub metrics_interval: Option<u64>,
}

impl Default for RuntimeConfig {
    fn default() -> (r: RuntimeConfig)
        ensures
            r.server_url is None,
            r.netdata_url is None,
            r.metrics_interval is None,
    {
        RuntimeConfig { server_url: None, netdata_url: None, metrics_interval: None }
    }
}

/// The override when present, else the default.
pub open spec fn override_or(v: Option<String>, default: Seq<char>) -> Seq<char> {
    match v {
        Some(s) => s@,
        None => default,
    }
}

/// Directory of the runtime configuration on each platform.
pub open spec fn config_dir_spec(p: Platform) -> Seq<char> {
    match p {
        Platform::Windows => "C:\\ProgramData\\RMM"@,
        Platform::MacOs => "/Library/Application Support/RMM"@,
        Platform::Linux => "/var/lib/rmm"@,
    }
}

fn copy_text(v: &Option<String>, default: &str) -> (r: String)
    ensures
        r@ == override_or(*v, default@),
{
    match v {
        Some(s) => to_owned_text(s.as_str()),
        None => to_owned_text(default),
    }
}

impl RuntimeConfig {
    /// Path of the runtime configuration file on the given platform.
    pub fn config_path(platform: Platform) -> (r: String)
        ensures
            r@ == joined(config_dir_spec(platform), "config.json"@, platform),
    {
        let dir = match platform {
            Platform::Windows => "C:\\ProgramData\\RMM",
            Platform::MacOs => "/Library/Application Support/RMM",
            Platform::Linux => "/var/lib/rmm",
        };
        crate::config::join_path(dir, "config.json", platform)
    }

    pub open spec fn effective_server_url_spec(&self, default: Seq<char>) -> Seq<char> {
        override_or(self.server_url, default)
    }

    pub open spec fn effective_netdata_url_spec(&self, default: Seq<char>) -> Seq<char> {
        override_or(self.netdata_url, default)
    }

    pub open spec fn effective_metrics_interval_spec(&self, default: u64) -> u64 {
        match self.metrics_interval {
            Some(v) => v,
            None => default,
        }
    }

    /// The effective server URL (override or default).
    pub fn effective_server_url(&self, default: &str) -> (r: String)
        ensures
            r@ == self.effective_server_url_spec(default@),
    {
        copy_text(&self.server_url, default)
    }

    /// The effective metrics daemon URL (override or default).
    pub fn effective_netdata_url(&self, default: &str) -> (r: String)
        ensures
            r@ == self.effective_netdata_url_spec(default@),
    {
        copy_text(&self.netdata_url, default)
    }

    /// The effective metrics interval (override or default).
    pub fn effective_metrics_interval(&self, default: u64) -> (r: u64)
        ensures
            r == self.effective_metrics_interval_spec(default),
    {
        match self.metrics_interval {
            Some(v) => v,
            None => default,
        }
    }

    /// Records a new server URL. Returns whether it differs from the URL in
    /// effect before, in which case the stored credential must be wiped so
    /// that the agent enrolls again against the new backend.
    pub fn set_server_url(&mut self, url: String, default: &str) -> (changed: bool)
        ensures
            changed == (old(self).effective_server_url_spec(default@) != url@),
            final(self).server_url matches Some(u) && u@ == url@,
            final(self).netdata_url == old(self).netdata_url,
            final(self).metrics_interval == old(self).metrics_interval,
    {
        let before = self.effective_server_url(default);
        let changed = !crate::text::same_text(before.as_str(), url.as_str());
        self.server_url = Some(url);
        changed
    }
}

} // verus!
