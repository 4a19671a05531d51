//! Host facts used to enroll the device, and the hardware fingerprint the
//! backend uses to recognise it across re-enrollments.
use vstd::prelude::*;
use vstd::utf8::*;
use sha2::Digest;
use crate::text::{concat, decimal, decimal_string, to_owned_text};

verus! {

/// The SHA-256 digest of `data`.
pub uninterp spec fn sha256_of(data: Seq<u8>) -> Seq<u8>;

/// Relies on `sha2::Sha256::digest`: the 32-byte SHA-256 digest of the input.
#[verifier::external_body]
fn sha256(data: &[u8]) -> (r: Vec<u8>)
    ensures
        r@ == sha256_of(data@),
        r@.len() == 32,
{
    sha2::Sha256::digest(data).to_vec()
}

/// Lower-case hexadecimal digit of `n` (below 16).
pub open spec fn hex_digit(n: int) -> char {
    if n < 10 {
        (('0' as int) + n) as char
    } else {
        (('a' as int) + n - 10) as char
    }
}

/// Lower-case hexadecimal text of `b`: two digits per byte, high nibble first.
pub open spec fn hex_lower(b: Seq<u8>) -> Seq<char> {
    Seq::new(
        2 * b.len(),
        |i: int|
            if i % 2 == 0 {
                hex_digit(b[i / 2] as int / 16)
            } else {
                hex_digit(b[i / 2] as int % 16)
            },
    )
}

/// Relies on `hex::encode`: two lower-case digits per byte, high nibble first.
#[verifier::external_body]
fn hex_encode(b: &[u8]) -> (r: String)
    ensures
        r@ == hex_lower(b@),
{
    hex::encode(b)
}

/// Bytes fed to the digest, in order: host name, CPU model, the decimal core
/// count, then the platform's stable hardware material.
pub open spec fn fingerprint_input_spec(hostname: Seq<char>, cpu_model: Seq<char>, cpu_cores: nat, hardware: Seq<u8>) -> Seq<u8> {
    encode_utf8(hostname) + encode_utf8(cpu_model) + encode_utf8(decimal(cpu_cores)) + hardware
}

/// The hardware fingerprint of those host facts.
pub open spec fn fingerprint_spec(hostname: Seq<char>, cpu_model: Seq<char>, cpu_cores: nat, hardware: Seq<u8>) -> Seq<char> {
    hex_lower(sha256_of(fingerprint_input_spec(hostname, cpu_model, cpu_cores, hardware)))
}

fn append_bytes(v: &mut Vec<u8>, b: &[u8])
    ensures
        final(v)@ == old(v)@ + b@,
{
    let mut i: usize = 0;
    let ghost start = v@;
    while i < b.len()
        invariant
            i <= b@.len(),
            v@ == start + b@.subrange(0, i as int),
        decreases b@.len() - i,
    {
        v.push(b[i]);
        i = i + 1;
        assert(v@ =~= start + b@.subrange(0, i as int));
    }
    assert(b@.subrange(0, b@.len() as int) =~= b@);
}

/// The bytes the fingerprint digests.
pub fn fingerprint_input(hostname: &str, cpu_model: &str, cpu_cores: usize, hardware: &[u8]) -> (r: Vec<u8>)
    ensures
        r@ == fingerprint_input_spec(hostname@, cpu_model@, cpu_cores as nat, hardware@),
{
    let mut v: Vec<u8> = Vec::new();
    append_bytes(&mut v, hostname.as_bytes());
    append_bytes(&mut v, cpu_model.as_bytes());
    let cores = decimal_string(cpu_cores as u64);
    append_bytes(&mut v, cores.as_str().as_bytes());
    append_bytes(&mut v, hardware);
    assert(v@ =~= fingerprint_input_spec(hostname@, cpu_model@, cpu_cores as nat, hardware@));
    v
}

/// The fingerprint text of a digest.
pub fn fingerprint_from_digest(digest: &[u8]) -> (r: String)
    ensures
        r@ == hex_lower(digest@),
{
    hex_encode(digest)
}

/// Hardware fingerprint: lower-case hex of the SHA-256 digest of the host
/// facts, 64 characters.
pub fn generate_fingerprint(hostname: &str, cpu_model: &str, cpu_cores: usize, hardware: &[u8]) -> (r: String)
    ensures
        r@ == fingerprint_spec(hostname@, cpu_model@, cpu_cores as nat, hardware@),
        r@.len() == 64,
{
    let input = fingerprint_input(hostname, cpu_model, cpu_cores, hardware);
    let digest = sha256(input.as_slice());
    fingerprint_from_digest(digest.as_slice())
}

/// The fingerprint depends on the host facts alone: the same host yields the
/// same fingerprint on every gathering.
pub proof fn lemma_fingerprint_stable(
    hostname: Seq<char>,
    cpu_model: Seq<char>,
    cpu_cores: nat,
    hardware: Seq<u8>,
    hostname2: Seq<char>,
    cpu_model2: Seq<char>,
    cpu_cores2: nat,
    hardware2: Seq<u8>,
)
    requires
        hostname == hostname2,
        cpu_model == cpu_model2,
        cpu_cores == cpu_cores2,
        hardware == hardware2,
    ensures
        fingerprint_spec(hostname, cpu_model, cpu_cores, hardware) == fingerprint_spec(hostname2, cpu_model2, cpu_cores2, hardware2),
{
}

/// A disk of the host.
#[derive(Debug)]
pub struct DiskInfo {
    pub name: String,
    pub mount_point: String,
    pub total_bytes: u64,
    pub available_bytes: u64,
}

/// A network interface of the host.
#[derive(Debug)]
pub struct NetworkInterface {
    pub name: String,
    pub mac_address: String,
    pub ip_addresses: Vec<String>,
}

/// Raw host facts as read from the operating system; absent where the
/// system could not tell.
#[derive(Debug)]
pub struct HostFacts {
    pub hostname: Option<String>,
    pub os_name: Option<String>,
    pub os_version: Option<String>,
    pub cpu_model: Option<String>,
    pub cpu_cores: usize,
    pub total_ram_bytes: u64,
    pub disks: Vec<DiskInfo>,
    pub network_interfaces: Vec<NetworkInterface>,
    /// Platform-specific stable hardware material (MAC address listing).
    pub hardware_material: Vec<u8>,
}

/// The minimum set of host facts could not be obtained.
#[derive(Debug, Clone, Copy, PartialEq, Eq, Structural)]
pub enum ProbeError {
    MissingHostname,
    NoCpuCores,
    NoMemory,
}

/// Identifying facts about the host.
#[derive(Debug)]
pub struct SystemInfo {
    pub hostname: String,
    pub os_name: String,
    pub os_version: String,
    pub cpu_model: String,
    pub cpu_cores: usize,
    pub total_ram_bytes: u64,
    pub disks: Vec<DiskInfo>,
    pub network_interfaces: Vec<NetworkInterface>,
    pub hardware_fingerprint: String,
}

/// `v` when present, else `fallback`.
pub open spec fn or_text(v: Option<String>, fallback: Seq<char>) -> Seq<char> {
    match v {
        Some(s) => s@,
        None => fallback,
    }
}

fn text_or(v: Option<String>, fallback: &str) -> (r: String)
    ensures
        r@ == or_text(v, fallback@),
{
    match v {
        Some(s) => s,
        None => to_owned_text(fallback),
    }
}

/// RAM in tenths of GiB, rounded half to even (as `{:.1}` prints the quotient).
pub open spec fn ram_tenths(bytes: nat) -> nat {
    let n = bytes * 10;
    let q = n / 0x4000_0000;
    let rem = n % 0x4000_0000;
    if rem > 0x2000_0000 || (rem == 0x2000_0000 && q % 2 == 1) {
        q + 1
    } else {
        q
    }
}

/// `n` tenths as text with one decimal.
pub open spec fn tenths_text(n: nat) -> Seq<char> {
    decimal(n / 10) + "."@ + decimal(n % 10)
}

impl SystemInfo {
    pub open spec fn wf(&self) -> bool {
        &&& self.cpu_cores >= 1
        &&& self.total_ram_bytes > 0
        &&& self.hardware_fingerprint@.len() == 64
    }

    /// Builds the system information from host facts; fails when the host
    /// name, the core count or the memory size is missing.
    pub fn gather(facts: HostFacts) -> (r: Result<SystemInfo, ProbeError>)
        ensures
            facts.hostname is None ==> r == Err::<SystemInfo, ProbeError>(ProbeError::MissingHostname),
            facts.hostname is Some && facts.cpu_cores == 0 ==> r == Err::<SystemInfo, ProbeError>(ProbeError::NoCpuCores),
            facts.hostname is Some && facts.cpu_cores > 0 && facts.total_ram_bytes == 0 ==> r == Err::<SystemInfo, ProbeError>(ProbeError::NoMemory),
            r is Ok <==> (facts.hostname is Some && facts.cpu_cores > 0 && facts.total_ram_bytes > 0),
            r matches Ok(info) ==> {
                &&& info.wf()
                &&& info.hostname@ == facts.hostname->Some_0@
                &&& info.os_name@ == or_text(facts.os_name, "Unknown OS"@)
                &&& info.os_version@ == or_text(facts.os_version, "Unknown"@)
                &&& info.cpu_model@ == or_text(facts.cpu_model, "Unknown CPU"@)
                &&& info.cpu_cores == facts.cpu_cores
                &&& info.total_ram_bytes == facts.total_ram_bytes
                &&& info.disks@ == facts.disks@
                &&& info.network_interfaces@ == facts.network_interfaces@
                &&& info.hardware_fingerprint@ == fingerprint_spec(
                    info.hostname@,
                    info.cpu_model@,
                    info.cpu_cores as nat,
                    facts.hardware_material@,
                )
            },
    {
        let HostFacts {
            hostname,
            os_name,
            os_version,
            cpu_model,
            cpu_cores,
            total_ram_bytes,
            disks,
            network_interfaces,
            hardware_material,
        } = facts;
        let hostname = match hostname {
            Some(h) => h,
            None => return Err(ProbeError::MissingHostname),
        };
        if cpu_cores == 0 {
            return Err(ProbeError::NoCpuCores);
        }
        if total_ram_bytes == 0 {
            return Err(ProbeError::NoMemory);
        }
        let cpu_model = text_or(cpu_model, "Unknown CPU");
        let hardware_fingerprint = generate_fingerprint(
            hostname.as_str(),
            cpu_model.as_str(),
            cpu_cores,
            hardware_material.as_slice(),
        );
        Ok(SystemInfo {
            hostname,
            os_name: text_or(os_name, "Unknown OS"),
            os_version: text_or(os_version, "Unknown"),
            cpu_model,
            cpu_cores,
            total_ram_bytes,
            disks,
            network_interfaces,
            hardware_fingerprint,
        })
    }

    /// RAM in tenths of GiB, rounded as one-decimal printing rounds.
    pub fn ram_tenths_of_gib(bytes: u64) -> (r: u64)
        ensures
            r == ram_tenths(bytes as nat),
    {
        let n: u128 = (bytes as u128) * 10;
        let q: u128 = n / 0x4000_0000;
        let rem: u128 = n % 0x4000_0000;
        let r: u128 = if rem > 0x2000_0000 || (rem == 0x2000_0000 && q % 2 == 1) {
            q + 1
        } else {
            q
        };
        assert(r <= u64::MAX) by (nonlinear_arith)
            requires
                n == bytes * 10,
                q == n / 0x4000_0000,
                r <= q + 1,
                bytes <= u64::MAX,
        ;
        r as u64
    }

    /// One-line summary for display.
    pub fn summary(&self) -> (r: String)
        ensures
            r@ == self.hostname@ + " - "@ + self.os_name@ + " "@ + self.os_version@ + " - "@
                + decimal(self.cpu_cores as nat) + " cores - "@ + tenths_text(
                ram_tenths(self.total_ram_bytes as nat),
            ) + " GB RAM - "@ + decimal(self.network_interfaces@.len()) + " interfaces"@,
    {
        let tenths = SystemInfo::ram_tenths_of_gib(self.total_ram_bytes);
        let mut s = concat(self.hostname.as_str(), " - ");
        s.append(self.os_name.as_str());
        s.append(" ");
        s.append(self.os_version.as_str());
        s.append(" - ");
        let cores = decimal_string(self.cpu_cores as u64);
        s.append(cores.as_str());
        s.append(" cores - ");
        let whole = decimal_string(tenths / 10);
        s.append(whole.as_str());
        s.append(".");
        let frac = decimal_string(tenths % 10);
        s.append(frac.as_str());
        s.append(" GB RAM - ");
        let count = decimal_string(self.network_interfaces.len() as u64);
        s.append(count.as_str());
        s.append(" interfaces");
        s
    }
}

} // verus!
