//! The application configuration file model (`./config/config`) and its
//! defaults. Snipe timing settings are fractional seconds and live with
//! the application, not here.

use vstd::prelude::*;
use crate::cloudflare::{AuthError as CloudflareAuthError, ConfigurationProvider as CloudflareConfigurationProvider};
use crate::text::{
    concat2, concat3, copy_string, decimal, decimal_string, is_blank, is_blank_str, signed_decimal,
    signed_decimal_string, str_chars, string_of,
};

verus! {

/// OCI API-key authentication settings (`[oci]`).
#[derive(Debug, Clone)]
pub struct OciAuthConfig {
    pub user: String,
    pub fingerprint: String,
    pub tenancy: String,
    pub region: String,
    pub key_file: String,
    pub passphrase: Option<String>,
}

impl Default for OciAuthConfig {
    /// All fields empty, no passphrase.
    fn default() -> (r: Self)
        ensures
            r.user@ == Seq::<char>::empty(),
            r.fingerprint@ == Seq::<char>::empty(),
            r.tenancy@ == Seq::<char>::empty(),
            r.region@ == Seq::<char>::empty(),
            r.key_file@ == Seq::<char>::empty(),
            r.passphrase is None,
    {
        OciAuthConfig {
            user: String::new(),
            fingerprint: String::new(),
            tenancy: String::new(),
            region: String::new(),
            key_file: String::new(),
            passphrase: None,
        }
    }
}

/// Cloudflare settings (`[cloudflare]`).
#[derive(Debug, Clone)]
pub struct CloudflareConfig {
    pub api_token: String,
    pub zone_name: String,
    pub record_name: Option<String>,
}

impl Default for CloudflareConfig {
    /// Empty token and zone, no record name.
    fn default() -> (r: Self)
        ensures
            r.api_token@ == Seq::<char>::empty(),
            r.zone_name@ == Seq::<char>::empty(),
            r.record_name is None,
    {
        CloudflareConfig { api_token: String::new(), zone_name: String::new(), record_name: None }
    }
}

impl CloudflareConfigurationProvider for CloudflareConfig {
    /// The token, unless it is blank.
    fn api_token(&self) -> (r: Result<String, CloudflareAuthError>)
        ensures
            match r {
                Ok(v) => !is_blank(self.api_token@) && v@ == self.api_token@,
                Err(CloudflareAuthError::MissingValue(n)) => is_blank(self.api_token@) && n@
                    == "api_token"@,
            },
    {
        if is_blank_str(self.api_token.as_str()) {
            Err(CloudflareAuthError::MissingValue(String::from_str("api_token")))
        } else {
            Ok(copy_string(&self.api_token))
        }
    }

    /// The zone name, unless it is blank.
    fn zone_name(&self) -> (r: Result<String, CloudflareAuthError>)
        ensures
            match r {
                Ok(v) => !is_blank(self.zone_name@) && v@ == self.zone_name@,
                Err(CloudflareAuthError::MissingValue(n)) => is_blank(self.zone_name@) && n@
                    == "zone_name"@,
            },
    {
        if is_blank_str(self.zone_name.as_str()) {
            Err(CloudflareAuthError::MissingValue(String::from_str("zone_name")))
        } else {
            Ok(copy_string(&self.zone_name))
        }
    }
}

/// Oracle Cloud resource identifiers (`[oracle]`).
#[derive(Debug, Clone)]
pub struct OracleConfig {
    pub compartment_id: String,
    pub availability_domain: String,
    pub subnet_id: String,
    pub image_id_amd: String,
    pub image_id_arm: String,
    pub ssh_public_key: String,
}

/// Instance settings (`[instance]`).
#[derive(Debug, Clone)]
pub struct InstanceSettings {
    pub instance_type: String,
    pub display_name: String,
    pub arm_ocpus: Option<u8>,
    pub arm_memory_gb: Option<u8>,
    pub boot_volume_size_gb: i64,
}

/// Network settings (`[network]`).
#[derive(Debug, Clone)]
pub struct NetworkSettings {
    pub assign_public_ip: bool,
    pub assign_ipv6: bool,
    pub private_ip: Option<String>,
    pub ipv6_address: Option<String>,
    pub hostname_label: Option<String>,
}

/// The configuration file.
#[derive(Debug, Clone)]
pub struct InstanceConfigFile {
    pub oci: OciAuthConfig,
    pub cloudflare: CloudflareConfig,
    pub oracle: OracleConfig,
    pub instance: InstanceSettings,
    pub network: NetworkSettings,
}

/// The placeholder defaults of a fresh configuration.
pub open spec fn is_default_config(c: InstanceConfigFile) -> bool {
    &&& c.oci.user@ == Seq::<char>::empty()
    &&& c.oci.fingerprint@ == Seq::<char>::empty()
    &&& c.oci.tenancy@ == Seq::<char>::empty()
    &&& c.oci.region@ == Seq::<char>::empty()
    &&& c.oci.key_file@ == Seq::<char>::empty()
    &&& c.oci.passphrase is None
    &&& c.cloudflare.api_token@ == Seq::<char>::empty()
    &&& c.cloudflare.zone_name@ == Seq::<char>::empty()
    &&& c.cloudflare.record_name is None
    &&& c.oracle.compartment_id@ == "ocid1.compartment.oc1..your-compartment-id"@
    &&& c.oracle.availability_domain@ == "your-region-AD-1"@
    &&& c.oracle.subnet_id@ == "ocid1.subnet.oc1..your-subnet-id"@
    &&& c.oracle.image_id_amd@ == "ocid1.image.oc1..your-amd-image-id"@
    &&& c.oracle.image_id_arm@ == "ocid1.image.oc1..your-arm-image-id"@
    &&& c.oracle.ssh_public_key@ == "ssh-rsa AAAAB3NzaC1yc2E... your-ssh-public-key"@
    &&& c.instance.instance_type@ == "amd"@
    &&& c.instance.display_name@ == "my-instance"@
    &&& c.instance.arm_ocpus == Some(2u8)
    &&& c.instance.arm_memory_gb == Some(12u8)
    &&& c.instance.boot_volume_size_gb == 47
    &&& c.network.assign_public_ip
    &&& !c.network.assign_ipv6
    &&& c.network.private_ip is None
    &&& c.network.ipv6_address is None
    &&& c.network.hostname_label is None
}

impl Default for InstanceConfigFile {
    /// Placeholder identifiers, an AMD instance named `my-instance` with a
    /// 47 GB boot volume, and a public IPv4 address.
    fn default() -> (r: Self)
        ensures
            is_default_config(r),
    {
        InstanceConfigFile {
            oci: OciAuthConfig::default(),
            cloudflare: CloudflareConfig::default(),
            oracle: OracleConfig {
                compartment_id: String::from_str("ocid1.compartment.oc1..your-compartment-id"),
                availability_domain: String::from_str("your-region-AD-1"),
                subnet_id: String::from_str("ocid1.subnet.oc1..your-subnet-id"),
                image_id_amd: String::from_str("ocid1.image.oc1..your-amd-image-id"),
                image_id_arm: String::from_str("ocid1.image.oc1..your-arm-image-id"),
                ssh_public_key: String::from_str("ssh-rsa AAAAB3NzaC1yc2E... your-ssh-public-key"),
            },
            instance: InstanceSettings {
                instance_type: String::from_str("amd"),
                display_name: String::from_str("my-instance"),
                arm_ocpus: Some(2),
                arm_memory_gb: Some(12),
                boot_volume_size_gb: 47,
            },
            network: NetworkSettings {
                assign_public_ip: true,
                assign_ipv6: false,
                private_ip: None,
                ipv6_address: None,
                hostname_label: None,
            },
        }
    }
}

/// `Yes` or `No`.
pub open spec fn yes_no(b: bool) -> Seq<char> {
    if b {
        "Yes"@
    } else {
        "No"@
    }
}

/// How the summary names an instance type: `amd` is the AMD micro shape,
/// anything else the ARM flexible one.
pub open spec fn instance_type_label(t: Seq<char>) -> Seq<char> {
    if t == "amd"@ {
        "AMD Micro"@
    } else {
        "ARM Flex"@
    }
}

/// A line shown only when the value is set.
pub open spec fn optional_line(label: Seq<char>, v: Option<String>) -> Seq<Seq<char>> {
    match v {
        Some(x) => seq![label + x@],
        None => Seq::empty(),
    }
}

/// The OCPU and memory lines, shown when both are set.
pub open spec fn arm_lines(ocpus: Option<u8>, memory: Option<u8>) -> Seq<Seq<char>> {
    match (ocpus, memory) {
        (Some(o), Some(m)) => seq!["  OCPU: "@ + decimal(o as nat), "  Memory: "@ + decimal(m as nat) + " GB"@],
        _ => Seq::empty(),
    }
}

/// The lines of the configuration summary, up to the snipe settings: the
/// Oracle identifiers (the SSH key cut to its first 50 characters), the
/// instance and the network settings.
pub open spec fn config_summary_spec(c: InstanceConfigFile) -> Seq<Seq<char>> {
    seq![
        "\n📋 Current Configuration"@,
        "═══════════════════════════════════════"@,
        "\n🔹 Oracle Cloud Config:"@,
        "  Compartment ID: "@ + c.oracle.compartment_id@,
        "  Availability Domain: "@ + c.oracle.availability_domain@,
        "  Subnet ID: "@ + c.oracle.subnet_id@,
        "  AMD Image: "@ + c.oracle.image_id_amd@,
        "  ARM Image: "@ + c.oracle.image_id_arm@,
        "  SSH Public Key: "@ + c.oracle.ssh_public_key@.take(
            if c.oracle.ssh_public_key@.len() < 50 { c.oracle.ssh_public_key@.len() as int } else { 50 },
        ) + "..."@,
        "\n🔹 Instance Config:"@,
        "  Type: "@ + instance_type_label(c.instance.instance_type@),
        "  Name: "@ + c.instance.display_name@,
    ] + arm_lines(c.instance.arm_ocpus, c.instance.arm_memory_gb) + seq![
        "  Boot Volume: "@ + signed_decimal(c.instance.boot_volume_size_gb as int) + " GB"@,
        "\n🔹 Network Config:"@,
        "  Public IPv4: "@ + yes_no(c.network.assign_public_ip),
        "  IPv6:        "@ + yes_no(c.network.assign_ipv6),
    ] + optional_line("  Private IPv4: "@, c.network.private_ip) + optional_line(
        "  IPv6 Address: "@,
        c.network.ipv6_address,
    ) + optional_line("  Hostname:     "@, c.network.hostname_label)
}

/// Appends `label` followed by the value, when there is one.
pub(crate) fn push_optional(lines: &mut Vec<String>, label: &str, v: &Option<String>)
    ensures
        final(lines)@.len() == old(lines)@.len() + optional_line(label@, *v).len(),
        forall|i: int| 0 <= i < old(lines)@.len() ==> final(lines)@[i] == old(lines)@[i],
        forall|i: int|
            0 <= i < optional_line(label@, *v).len() ==> final(lines)@[old(lines)@.len() + i]@
                == optional_line(label@, *v)[i],
{
    match v {
        Some(x) => {
            lines.push(concat2(label, x.as_str()));
        },
        None => {},
    }
}

/// Lays out the configuration summary (see [`config_summary_spec`]).
pub fn config_summary(config: &InstanceConfigFile) -> (r: Vec<String>)
    ensures
        r@.len() == config_summary_spec(*config).len(),
        forall|i: int| 0 <= i < r@.len() ==> (#[trigger] r@[i])@ == config_summary_spec(*config)[i],
{
    let mut lines: Vec<String> = Vec::new();
    lines.push(String::from_str("\n📋 Current Configuration"));
    lines.push(String::from_str("═══════════════════════════════════════"));
    lines.push(String::from_str("\n🔹 Oracle Cloud Config:"));
    lines.push(concat2("  Compartment ID: ", config.oracle.compartment_id.as_str()));
    lines.push(concat2("  Availability Domain: ", config.oracle.availability_domain.as_str()));
    lines.push(concat2("  Subnet ID: ", config.oracle.subnet_id.as_str()));
    lines.push(concat2("  AMD Image: ", config.oracle.image_id_amd.as_str()));
    lines.push(concat2("  ARM Image: ", config.oracle.image_id_arm.as_str()));
    let key = str_chars(config.oracle.ssh_public_key.as_str());
    let cut: usize = if key.len() < 50 { key.len() } else { 50 };
    let mut head: Vec<char> = Vec::new();
    let mut i: usize = 0;
    while i < cut
        invariant
            cut <= key@.len(),
            i <= cut,
            head@ == key@.take(i as int),
        decreases cut - i,
    {
        head.push(key[i]);
        i = i + 1;
        proof {
            assert(head@ =~= key@.take(i as int));
        }
    }
    let head = string_of(head.as_slice());
    lines.push(concat3("  SSH Public Key: ", head.as_str(), "..."));
    lines.push(String::from_str("\n🔹 Instance Config:"));
    let label = if str_is_amd(config.instance.instance_type.as_str()) {
        "AMD Micro"
    } else {
        "ARM Flex"
    };
    lines.push(concat2("  Type: ", label));
    lines.push(concat2("  Name: ", config.instance.display_name.as_str()));
    let ghost before_arm = lines@;
    match (config.instance.arm_ocpus, config.instance.arm_memory_gb) {
        (Some(o), Some(m)) => {
            let os = decimal_string(o as u64);
            lines.push(concat2("  OCPU: ", os.as_str()));
            let ms = decimal_string(m as u64);
            lines.push(concat3("  Memory: ", ms.as_str(), " GB"));
        },
        _ => {},
    }
    let boot = signed_decimal_string(config.instance.boot_volume_size_gb);
    lines.push(concat3("  Boot Volume: ", boot.as_str(), " GB"));
    lines.push(String::from_str("\n🔹 Network Config:"));
    let p = if config.network.assign_public_ip { "Yes" } else { "No" };
    lines.push(concat2("  Public IPv4: ", p));
    let p6 = if config.network.assign_ipv6 { "Yes" } else { "No" };
    lines.push(concat2("  IPv6:        ", p6));
    let ghost before_opt = lines@;
    push_optional(&mut lines, "  Private IPv4: ", &config.network.private_ip);
    let ghost after1 = lines@;
    push_optional(&mut lines, "  IPv6 Address: ", &config.network.ipv6_address);
    let ghost after2 = lines@;
    push_optional(&mut lines, "  Hostname:     ", &config.network.hostname_label);
    proof {
        let spec = config_summary_spec(*config);
        assert(lines@.len() == spec.len());
        assert forall|i: int| 0 <= i < lines@.len() implies (#[trigger] lines@[i])@ == spec[i] by {
            if i < after2.len() {
                assert(lines@[i] == after2[i]);
                if i < after1.len() {
                    assert(after2[i] == after1[i]);
                    if i < before_opt.len() {
                        assert(after1[i] == before_opt[i]);
                    }
                }
            }
        }
    }
    lines
}

/// Whether an instance type names the AMD shape.
pub(crate) fn str_is_amd(t: &str) -> (r: bool)
    ensures
        r == (t@ == "amd"@),
{
    crate::text::str_eq(t, "amd")
}

/// What the summary shows for the attempt cap: `unlimited` for 0, else the
/// number.
pub fn max_attempts_label(max_attempts: u32) -> (r: String)
    ensures
        max_attempts == 0 ==> r@ == "unlimited"@,
        max_attempts != 0 ==> r@ == decimal(max_attempts as nat),
{
    if max_attempts == 0 {
        String::from_str("unlimited")
    } else {
        decimal_string(max_attempts as u64)
    }
}

} // verus!
