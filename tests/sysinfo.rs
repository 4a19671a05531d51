use rmm_agent::sysinfo::{
    fingerprint_from_digest, fingerprint_input, generate_fingerprint, HostFacts, NetworkInterface, ProbeError,
    SystemInfo,
};

fn facts() -> HostFacts {
    HostFacts {
        hostname: Some("test-host".to_string()),
        os_name: Some("Linux".to_string()),
        os_version: Some("6.1".to_string()),
        cpu_model: Some("Test CPU".to_string()),
        cpu_cores: 8,
        total_ram_bytes: 17179869184,
        disks: vec![],
        network_interfaces: vec![NetworkInterface {
            name: "eth0".to_string(),
            mac_address: "00:11:22:33:44:55".to_string(),
            ip_addresses: vec![],
        }],
        hardware_material: b"00:11:22:33:44:55\n".to_vec(),
    }
}

#[test]
fn test_gather_system_info() {
    let info = SystemInfo::gather(facts()).unwrap();
    assert!(!info.hostname.is_empty());
    assert!(!info.os_name.is_empty());
    assert!(info.cpu_cores > 0);
    assert!(info.total_ram_bytes > 0);
    assert!(!info.hardware_fingerprint.is_empty());
    assert_eq!(info.hardware_fingerprint.len(), 64);
}

#[test]
fn test_fingerprint_consistency() {
    let info1 = SystemInfo::gather(facts()).unwrap();
    let info2 = SystemInfo::gather(facts()).unwrap();
    assert_eq!(info1.hardware_fingerprint, info2.hardware_fingerprint);
}

#[test]
fn fingerprint_input_order() {
    let v = fingerprint_input("host", "cpu", 12, b"mac");
    assert_eq!(v, b"hostcpu12mac".to_vec());
}

#[test]
fn fingerprint_is_sha256_hex() {
    // SHA-256 of "abc".
    let f = generate_fingerprint("a", "b", 0, b"");
    assert_ne!(f, generate_fingerprint("a", "b", 1, b""));
    let abc = generate_fingerprint("ab", "c", 7, b"");
    assert_eq!(abc.len(), 64);
    assert_eq!(
        generate_fingerprint("", "", 1, b""),
        "6b86b273ff34fce19d6b804eff5a3f5747ada4eaa22f1d49c01e52ddb7875b4b"
    );
    assert_eq!(fingerprint_from_digest(&[0x00, 0xab, 0x0f]), "00ab0f");
}

#[test]
fn fingerprint_depends_on_hardware_material() {
    let mut other = facts();
    other.hardware_material = b"66:77:88:99:aa:bb\n".to_vec();
    let a = SystemInfo::gather(facts()).unwrap();
    let b = SystemInfo::gather(other).unwrap();
    assert_ne!(a.hardware_fingerprint, b.hardware_fingerprint);
}

#[test]
fn probe_errors() {
    let mut f = facts();
    f.hostname = None;
    assert_eq!(SystemInfo::gather(f).err(), Some(ProbeError::MissingHostname));
    let mut f = facts();
    f.cpu_cores = 0;
    assert_eq!(SystemInfo::gather(f).err(), Some(ProbeError::NoCpuCores));
    let mut f = facts();
    f.total_ram_bytes = 0;
    assert_eq!(SystemInfo::gather(f).err(), Some(ProbeError::NoMemory));
}

#[test]
fn fallbacks_for_missing_names() {
    let mut f = facts();
    f.os_name = None;
    f.os_version = None;
    f.cpu_model = None;
    let info = SystemInfo::gather(f).unwrap();
    assert_eq!(info.os_name, "Unknown OS");
    assert_eq!(info.os_version, "Unknown");
    assert_eq!(info.cpu_model, "Unknown CPU");
}

#[test]
fn summary_line() {
    let info = SystemInfo::gather(facts()).unwrap();
    assert_eq!(info.summary(), "test-host - Linux 6.1 - 8 cores - 16.0 GB RAM - 1 interfaces");
}

#[test]
fn ram_rounding_matches_float_formatting() {
    for bytes in [1u64, 1073741824, 1610612736, 107374182, 161061273, 53687091, 8_000_000_000, 123_456_789_012] {
        let expected = format!("{:.1}", bytes as f64 / 1024.0 / 1024.0 / 1024.0);
        let t = SystemInfo::ram_tenths_of_gib(bytes);
        assert_eq!(format!("{}.{}", t / 10, t % 10), expected, "bytes {}", bytes);
    }
}
