//! Metrics forwarding: the metrics daemon's description of the host, where
//! each named dimension sits in a sample row, the request URLs, and how the
//! backend's answer to a submission is classified.
use vstd::prelude::*;
use std::collections::HashMap;
use crate::text::{concat, concat3, same_text};

verus! {

/// Alarm counters reported by the metrics daemon.
#[derive(Debug, Clone, Copy, PartialEq, Eq, Structural)]
pub struct NetdataAlarms {
    pub normal: i32,
    pub warning: i32,
    pub critical: i32,
}

/// The metrics daemon's `/api/v3/info` answer; every field is optional.
#[derive(Debug)]
pub struct NetdataInfo {
    pub version: Option<String>,
    pub uid: Option<String>,
    pub os_name: Option<String>,
    pub os_id: Option<String>,
    pub os_version: Option<String>,
    pub kernel_name: Option<String>,
    pub kernel_version: Option<String>,
    pub architecture: Option<String>,
    pub virtualization: Option<String>,
    pub container: Option<String>,
    pub is_k8s_node: Option<bool>,
    pub alarms: Option<NetdataAlarms>,
    pub labels: Option<HashMap<String, String>>,
}

/// Dimension names of a sample.
#[derive(Debug)]
pub struct NetdataDimensions {
    pub ids: Vec<String>,
    pub names: Vec<String>,
    pub units: Option<Vec<String>>,
}

/// Alert summary forwarded to the backend.
#[derive(Debug, Clone, Copy, PartialEq, Eq, Structural)]
pub struct AlertsSummary {
    pub normal: i32,
    pub warning: i32,
    pub critical: i32,
}

/// Process counters forwarded to the backend.
#[derive(Debug, Clone, Copy, PartialEq, Eq, Structural)]
pub struct ProcessMetrics {
    pub running: Option<i32>,
    pub blocked: Option<i32>,
    pub total: Option<i32>,
}

/// Host description forwarded with the metrics.
#[derive(Debug)]
pub struct SystemInfo {
    pub netdata_version: Option<String>,
    pub os_name: Option<String>,
    pub os_version: Option<String>,
    pub kernel_name: Option<String>,
    pub kernel_version: Option<String>,
    pub architecture: Option<String>,
    pub virtualization: Option<String>,
    pub container: Option<String>,
    pub is_k8s_node: bool,
}

/// The alert summary of an info answer: its alarm counters, when present.
pub fn alerts_from(info: &NetdataInfo) -> (r: Option<AlertsSummary>)
    ensures
        r == match info.alarms {
            Some(a) => Some(AlertsSummary { normal: a.normal, warning: a.warning, critical: a.critical }),
            None => None,
        },
{
    match info.alarms {
        Some(a) => Some(AlertsSummary { normal: a.normal, warning: a.warning, critical: a.critical }),
        None => None,
    }
}

/// The host description of an info answer; an unknown Kubernetes flag
/// counts as false.
pub fn system_info_from(info: NetdataInfo) -> (r: SystemInfo)
    ensures
        r.netdata_version == info.version,
        r.os_name == info.os_name,
        r.os_version == info.os_version,
        r.kernel_name == info.kernel_name,
        r.kernel_version == info.kernel_version,
        r.architecture == info.architecture,
        r.virtualization == info.virtualization,
        r.container == info.container,
        r.is_k8s_node == (info.is_k8s_node == Some(true)),
{
    SystemInfo {
        netdata_version: info.version,
        os_name: info.os_name,
        os_version: info.os_version,
        kernel_name: info.kernel_name,
        kernel_version: info.kernel_version,
        architecture: info.architecture,
        virtualization: info.virtualization,
        container: info.container,
        is_k8s_node: match info.is_k8s_node {
            Some(b) => b,
            None => false,
        },
    }
}

/// A sample row has one more value than there are dimensions when it starts
/// with its timestamp; values then sit one place further on.
pub open spec fn value_offset(n_ids: nat, n_values: nat) -> nat {
    if n_ids < n_values { 1 } else { 0 }
}

/// Index of the last dimension id equal to `name`.
pub open spec fn last_index_of(ids: Seq<String>, name: Seq<char>) -> Option<int>
    decreases ids.len(),
{
    if ids.len() == 0 {
        None
    } else if ids.last()@ == name {
        Some(ids.len() - 1)
    } else {
        last_index_of(ids.drop_last(), name)
    }
}

/// Index of the last dimension id equal to `name` whose value lies inside a
/// row of `n_values` values.
pub open spec fn last_index_in_row(ids: Seq<String>, name: Seq<char>, offset: nat, n_values: nat) -> Option<int>
    decreases ids.len(),
{
    if ids.len() == 0 {
        None
    } else if ids.last()@ == name && ids.len() - 1 + offset < n_values {
        Some(ids.len() - 1)
    } else {
        last_index_in_row(ids.drop_last(), name, offset, n_values)
    }
}

/// Position in a row of `n_values` values of the dimension `name`: the last
/// dimension of that name wins, and the position may lie past the row's end.
pub fn dimension_slot(ids: &Vec<String>, n_values: usize, name: &str) -> (r: Option<usize>)
    ensures
        r == match last_index_of(ids@, name@) {
            Some(i) => Some((i + value_offset(ids@.len(), n_values as nat)) as usize),
            None => None::<usize>,
        },
{
    let offset: usize = if ids.len() < n_values { 1 } else { 0 };
    let mut i: usize = ids.len();
    assert(ids@.subrange(0, i as int) =~= ids@);
    while i > 0
        invariant
            i <= ids@.len(),
            offset == value_offset(ids@.len(), n_values as nat),
            last_index_of(ids@, name@) == last_index_of(ids@.subrange(0, i as int), name@),
        decreases i,
    {
        assert(ids@.subrange(0, i as int).drop_last() =~= ids@.subrange(0, i - 1));
        assert(ids@.subrange(0, i as int).last() == ids@[i - 1]);
        if same_text(ids[i - 1].as_str(), name) {
            assert(i - 1 + offset <= usize::MAX);
            return Some(i - 1 + offset);
        }
        i = i - 1;
    }
    None
}

/// Position in the row of the dimension `name`, counting only dimensions
/// whose value is present: the last such one wins.
pub fn dimension_slot_in_row(ids: &Vec<String>, n_values: usize, name: &str) -> (r: Option<usize>)
    ensures
        r == match last_index_in_row(ids@, name@, value_offset(ids@.len(), n_values as nat), n_values as nat) {
            Some(i) => Some((i + value_offset(ids@.len(), n_values as nat)) as usize),
            None => None::<usize>,
        },
        r matches Some(k) ==> k < n_values,
{
    let offset: usize = if ids.len() < n_values { 1 } else { 0 };
    let ghost off = offset as nat;
    let mut i: usize = ids.len();
    assert(ids@.subrange(0, i as int) =~= ids@);
    while i > 0
        invariant
            i <= ids@.len(),
            offset == value_offset(ids@.len(), n_values as nat),
            off == offset as nat,
            last_index_in_row(ids@, name@, off, n_values as nat) == last_index_in_row(
                ids@.subrange(0, i as int),
                name@,
                off,
                n_values as nat,
            ),
        decreases i,
    {
        assert(ids@.subrange(0, i as int).drop_last() =~= ids@.subrange(0, i - 1));
        assert(ids@.subrange(0, i as int).last() == ids@[i - 1]);
        if same_text(ids[i - 1].as_str(), name) && i - 1 < n_values && offset < n_values - (i - 1) {
            return Some(i - 1 + offset);
        }
        i = i - 1;
    }
    proof {
        assert(ids@.subrange(0, 0) =~= Seq::<String>::empty());
    }
    None
}

/// The fixed contexts fetched from the metrics daemon on every tick.
pub fn metric_contexts() -> (r: Vec<&'static str>)
    ensures
        r@.len() == 6,
        r@[0]@ == "system.cpu"@,
        r@[1]@ == "system.ram"@,
        r@[2]@ == "system.load"@,
        r@[3]@ == "system.uptime"@,
        r@[4]@ == "disk.space"@,
        r@[5]@ == "system.net"@,
{
    let mut v: Vec<&'static str> = Vec::new();
    v.push("system.cpu");
    v.push("system.ram");
    v.push("system.load");
    v.push("system.uptime");
    v.push("disk.space");
    v.push("system.net");
    v
}

/// URL of the metrics daemon's availability endpoint.
pub fn info_url(netdata_url: &str) -> (r: String)
    ensures
        r@ == netdata_url@ + "/api/v3/info"@,
{
    concat(netdata_url, "/api/v3/info")
}

/// URL fetching one point of a context, averaged.
pub fn context_url(netdata_url: &str, context: &str) -> (r: String)
    ensures
        r@ == netdata_url@ + "/api/v3/data?contexts="@ + context@
            + "&format=json&points=1&time_group=average"@,
{
    let head = concat3(netdata_url, "/api/v3/data?contexts=", context);
    concat(head.as_str(), "&format=json&points=1&time_group=average")
}

/// Backend endpoint for metric submissions.
pub fn submit_url(base_url: &str) -> (r: String)
    ensures
        r@ == base_url@ + "/api/metrics"@,
{
    concat(base_url, "/api/metrics")
}

/// Backend endpoint for heartbeats.
pub fn heartbeat_url(base_url: &str) -> (r: String)
    ensures
        r@ == base_url@ + "/api/heartbeat"@,
{
    concat(base_url, "/api/heartbeat")
}

/// Why a submission or heartbeat failed.
#[derive(Debug, Clone, Copy, PartialEq, Eq, Structural)]
pub enum SubmitError {
    /// 401: the credential was refused.
    AuthRejected,
    /// 429: too many requests; skip this tick.
    RateLimited,
    /// Any other failure.
    Transient,
}

/// Classifies a submission by the HTTP status it got (`None`: no response).
pub fn classify_submit(status: Option<u16>) -> (r: Result<(), SubmitError>)
    ensures
        r == match status {
            None => Err(SubmitError::Transient),
            Some(s) => if 200 <= s <= 299 {
                Ok(())
            } else if s == 401 {
                Err(SubmitError::AuthRejected)
            } else if s == 429 {
                Err(SubmitError::RateLimited)
            } else {
                Err::<(), SubmitError>(SubmitError::Transient)
            },
        },
{
    match status {
        None => Err(SubmitError::Transient),
        Some(s) => if 200 <= s && s <= 299 {
            Ok(())
        } else if s == 401 {
            Err(SubmitError::AuthRejected)
        } else if s == 429 {
            Err(SubmitError::RateLimited)
        } else {
            Err(SubmitError::Transient)
        },
    }
}

/// What the loop does after a submission.
#[derive(Debug, Clone, Copy, PartialEq, Eq, Structural)]
pub enum SubmitFollowUp {
    /// Carry on with the next tick.
    Continue,
    /// The credential was refused: ask the supervisor to re-check the status.
    RecheckStatus,
}

/// Only a refused credential goes upward; every other failure is logged and
/// the loop continues.
pub fn follow_up(result: &Result<(), SubmitError>) -> (r: SubmitFollowUp)
    ensures
        r == if *result == Err::<(), SubmitError>(SubmitError::AuthRejected) {
            SubmitFollowUp::RecheckStatus
        } else {
            SubmitFollowUp::Continue
        },
{
    match result {
        Err(SubmitError::AuthRejected) => SubmitFollowUp::RecheckStatus,
        _ => SubmitFollowUp::Continue,
    }
}

} // verus!
