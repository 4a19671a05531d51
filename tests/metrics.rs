use rmm_agent::metrics::{
    alerts_from, classify_submit, context_url, dimension_slot, dimension_slot_in_row, follow_up, heartbeat_url,
    info_url, metric_contexts, submit_url, system_info_from, AlertsSummary, NetdataAlarms, NetdataInfo,
    SubmitError, SubmitFollowUp,
};

fn ids(names: &[&str]) -> Vec<String> {
    names.iter().map(|s| s.to_string()).collect()
}

#[test]
fn slots_skip_the_timestamp() {
    let d = ids(&["user", "system", "idle"]);
    assert_eq!(dimension_slot(&d, 4, "idle"), Some(3));
    assert_eq!(dimension_slot(&d, 3, "idle"), Some(2));
    assert_eq!(dimension_slot(&d, 4, "nice"), None);
    assert_eq!(dimension_slot(&d, 2, "idle"), Some(2));
}

#[test]
fn last_dimension_of_a_name_wins() {
    let d = ids(&["load1", "load1", "load5"]);
    assert_eq!(dimension_slot(&d, 4, "load1"), Some(2));
    assert_eq!(dimension_slot_in_row(&d, 4, "load1"), Some(2));
    assert_eq!(dimension_slot_in_row(&d, 1, "load1"), Some(0));
    assert_eq!(dimension_slot_in_row(&d, 0, "load1"), None);
}

#[test]
fn submission_taxonomy() {
    assert_eq!(classify_submit(Some(200)), Ok(()));
    assert_eq!(classify_submit(Some(204)), Ok(()));
    assert_eq!(classify_submit(Some(401)), Err(SubmitError::AuthRejected));
    assert_eq!(classify_submit(Some(429)), Err(SubmitError::RateLimited));
    assert_eq!(classify_submit(Some(500)), Err(SubmitError::Transient));
    assert_eq!(classify_submit(Some(403)), Err(SubmitError::Transient));
    assert_eq!(classify_submit(None), Err(SubmitError::Transient));
    assert_eq!(follow_up(&Err(SubmitError::AuthRejected)), SubmitFollowUp::RecheckStatus);
    assert_eq!(follow_up(&Err(SubmitError::RateLimited)), SubmitFollowUp::Continue);
    assert_eq!(follow_up(&Ok(())), SubmitFollowUp::Continue);
}

#[test]
fn daemon_urls() {
    assert_eq!(info_url("http://127.0.0.1:19999"), "http://127.0.0.1:19999/api/v3/info");
    assert_eq!(
        context_url("http://127.0.0.1:19999", "system.cpu"),
        "http://127.0.0.1:19999/api/v3/data?contexts=system.cpu&format=json&points=1&time_group=average"
    );
    assert_eq!(submit_url("https://b"), "https://b/api/metrics");
    assert_eq!(heartbeat_url("https://b"), "https://b/api/heartbeat");
    assert_eq!(
        metric_contexts(),
        vec!["system.cpu", "system.ram", "system.load", "system.uptime", "disk.space", "system.net"]
    );
}

fn info() -> NetdataInfo {
    NetdataInfo {
        version: Some("1.44.0".to_string()),
        uid: None,
        os_name: Some("Windows".to_string()),
        os_id: None,
        os_version: Some("10".to_string()),
        kernel_name: None,
        kernel_version: None,
        architecture: Some("x86_64".to_string()),
        virtualization: None,
        container: None,
        is_k8s_node: None,
        alarms: Some(NetdataAlarms { normal: 10, warning: 2, critical: 0 }),
        labels: None,
    }
}

#[test]
fn info_mapping() {
    let i = info();
    assert_eq!(alerts_from(&i), Some(AlertsSummary { normal: 10, warning: 2, critical: 0 }));
    let s = system_info_from(i);
    assert_eq!(s.netdata_version.as_deref(), Some("1.44.0"));
    assert_eq!(s.architecture.as_deref(), Some("x86_64"));
    assert!(!s.is_k8s_node);
    let mut j = info();
    j.alarms = None;
    j.is_k8s_node = Some(true);
    assert_eq!(alerts_from(&j), None);
    assert!(system_info_from(j).is_k8s_node);
}
