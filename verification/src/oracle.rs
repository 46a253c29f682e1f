//! Always Free instance planning on Oracle Cloud: shape rules, instance
//! configuration builders, launch request composition, public IPv4 target
//! selection and refresh planning.

use vstd::prelude::*;
use crate::config::InstanceConfigFile;
use crate::oci_models::{
    CreatePublicIpDetails, CreateVnicDetails, Instance, InstanceSourceDetails, Ipv6AddressDetails,
    LaunchInstanceDetails, LaunchInstanceShapeConfigDetails, LifecycleState, PrivateIp, PublicIp,
    Vnic, VnicAttachment, state_debug_name,
};
use crate::tags::{copy_pairs, insert_pair, keys_distinct, pairs_map};
use crate::text::{concat2, concat3, copy_opt_string, copy_string, decimal, decimal_string, is_blank, is_blank_str, opt_view, str_eq};

verus! {

/// An Always Free compute shape.
#[derive(Debug, Clone, Copy, PartialEq, Eq, Structural)]
pub enum AlwaysFreeInstanceType {
    AmdMicro,
    ArmFlex { ocpus: u8, memory_gb: u8 },
}

/// Shape name of an instance type.
pub open spec fn shape_name(t: AlwaysFreeInstanceType) -> Seq<char> {
    match t {
        AlwaysFreeInstanceType::AmdMicro => "VM.Standard.E2.1.Micro"@,
        AlwaysFreeInstanceType::ArmFlex { .. } => "VM.Standard.A1.Flex"@,
    }
}

/// Why an instance type is refused, if it is: ARM Flex takes 1 to 4
/// OCPUs, 6 to 24 GB, and exactly 6 GB per OCPU.
pub open spec fn validation_error(t: AlwaysFreeInstanceType) -> Option<Seq<char>> {
    match t {
        AlwaysFreeInstanceType::AmdMicro => None,
        AlwaysFreeInstanceType::ArmFlex { ocpus, memory_gb } => {
            if ocpus == 0 || ocpus > 4 {
                Some("ARM Flex OCPU must be between 1-4"@)
            } else if memory_gb < 6 || memory_gb > 24 {
                Some("ARM Flex memory must be between 6-24 GB"@)
            } else if memory_gb != ocpus * 6 {
                Some(
                    "ARM Flex memory mismatch: "@ + decimal(ocpus as nat) + " OCPU requires "@
                        + decimal((ocpus * 6) as nat) + " GB memory"@,
                )
            } else {
                None
            }
        },
    }
}

impl AlwaysFreeInstanceType {
    /// The OCI shape name.
    pub fn shape(&self) -> (r: &'static str)
        ensures
            r@ == shape_name(*self),
    {
        match self {
            AlwaysFreeInstanceType::AmdMicro => "VM.Standard.E2.1.Micro",
            AlwaysFreeInstanceType::ArmFlex { .. } => "VM.Standard.A1.Flex",
        }
    }

    /// Checks the Always Free limits.
    pub fn validate(&self) -> (r: Result<(), String>)
        ensures
            match validation_error(*self) {
                None => r is Ok,
                Some(m) => r matches Err(e) && e@ == m,
            },
    {
        match self {
            AlwaysFreeInstanceType::AmdMicro => Ok(()),
            AlwaysFreeInstanceType::ArmFlex { ocpus, memory_gb } => {
                if *ocpus == 0 || *ocpus > 4 {
                    return Err(String::from_str("ARM Flex OCPU must be between 1-4"));
                }
                if *memory_gb < 6 || *memory_gb > 24 {
                    return Err(String::from_str("ARM Flex memory must be between 6-24 GB"));
                }
                let expected_memory: u8 = *ocpus * 6;
                if *memory_gb != expected_memory {
                    let a = decimal_string(*ocpus as u64);
                    let b = decimal_string(expected_memory as u64);
                    let m = concat3("ARM Flex memory mismatch: ", a.as_str(), " OCPU requires ");
                    let m = concat3(m.as_str(), b.as_str(), " GB memory");
                    return Err(m);
                }
                Ok(())
            },
        }
    }
}

/// The accepted instance types are AMD Micro and the four ARM Flex sizes
/// of 1 to 4 OCPUs with 6 GB each.
pub proof fn lemma_accepted_shapes(t: AlwaysFreeInstanceType)
    ensures
        validation_error(t) is None <==> (t is AmdMicro || (t matches AlwaysFreeInstanceType::ArmFlex {
            ocpus,
            memory_gb,
        } && 1 <= ocpus <= 4 && memory_gb == ocpus * 6)),
{
}

/// Settings of an instance to launch.
#[derive(Debug, Clone)]
pub struct InstanceConfig {
    pub instance_type: AlwaysFreeInstanceType,
    pub display_name: String,
    pub assign_public_ip: bool,
    pub boot_volume_size_gb: Option<i64>,
    /// Freeform tags as key/value pairs with distinct keys.
    pub tags: Option<Vec<(String, String)>>,
}

impl InstanceConfig {
    /// Tag keys are distinct.
    pub open spec fn wf(&self) -> bool {
        self.tags matches Some(t) ==> keys_distinct(t@)
    }

    /// The tags as a map.
    pub open spec fn tags_view(&self) -> Option<Map<Seq<char>, Seq<char>>> {
        match self.tags {
            Some(t) => Some(pairs_map(t@)),
            None => None,
        }
    }

    /// An AMD Micro instance with a public IPv4 address, a 47 GB boot
    /// volume and no tags.
    pub fn amd_micro(display_name: &str) -> (r: Self)
        ensures
            r.wf(),
            r.instance_type == AlwaysFreeInstanceType::AmdMicro,
            r.display_name@ == display_name@,
            r.assign_public_ip,
            r.boot_volume_size_gb == Some(47i64),
            r.tags is None,
    {
        InstanceConfig {
            instance_type: AlwaysFreeInstanceType::AmdMicro,
            display_name: String::from_str(display_name),
            assign_public_ip: true,
            boot_volume_size_gb: Some(47),
            tags: None,
        }
    }

    /// An ARM Flex instance with a public IPv4 address, a 47 GB boot
    /// volume and no tags.
    pub fn arm_flex(display_name: &str, ocpus: u8, memory_gb: u8) -> (r: Self)
        ensures
            r.wf(),
            r.instance_type == (AlwaysFreeInstanceType::ArmFlex { ocpus, memory_gb }),
            r.display_name@ == display_name@,
            r.assign_public_ip,
            r.boot_volume_size_gb == Some(47i64),
            r.tags is None,
    {
        InstanceConfig {
            instance_type: AlwaysFreeInstanceType::ArmFlex { ocpus, memory_gb },
            display_name: String::from_str(display_name),
            assign_public_ip: true,
            boot_volume_size_gb: Some(47),
            tags: None,
        }
    }

    /// Sets whether a public IPv4 address is assigned; the rest is kept.
    pub fn with_public_ip(self, assign: bool) -> (r: Self)
        ensures
            r.assign_public_ip == assign,
            r.instance_type == self.instance_type,
            r.display_name@ == self.display_name@,
            r.boot_volume_size_gb == self.boot_volume_size_gb,
            r.tags == self.tags,
    {
        let mut s = self;
        s.assign_public_ip = assign;
        s
    }

    /// Sets the boot volume size; the rest is kept.
    pub fn with_boot_volume_size(self, size_gb: i64) -> (r: Self)
        ensures
            r.boot_volume_size_gb == Some(size_gb),
            r.instance_type == self.instance_type,
            r.display_name@ == self.display_name@,
            r.assign_public_ip == self.assign_public_ip,
            r.tags == self.tags,
    {
        let mut s = self;
        s.boot_volume_size_gb = Some(size_gb);
        s
    }

    /// Sets tag `key` to `value`, starting a tag set when there is none; the
    /// rest is kept.
    pub fn with_tag(self, key: &str, value: &str) -> (r: Self)
        requires
            self.wf(),
        ensures
            r.wf(),
            r.tags_view() == Some(
                match self.tags_view() {
                    Some(m) => m,
                    None => Map::<Seq<char>, Seq<char>>::empty(),
                }.insert(key@, value@),
            ),
            r.instance_type == self.instance_type,
            r.display_name@ == self.display_name@,
            r.assign_public_ip == self.assign_public_ip,
            r.boot_volume_size_gb == self.boot_volume_size_gb,
    {
        let mut s = self;
        let mut tags = match s.tags {
            Some(t) => t,
            None => Vec::new(),
        };
        proof {
            if tags@.len() == 0 {
                assert(pairs_map(tags@) =~= Map::<Seq<char>, Seq<char>>::empty());
            }
        }
        insert_pair(&mut tags, String::from_str(key), String::from_str(value));
        s.tags = Some(tags);
        s
    }

    /// Uses `name` as the display name when it is given and not blank.
    pub fn override_display_name(&mut self, name: Option<String>)
        ensures
            final(self).display_name@ == (match name {
                Some(n) => if is_blank(n@) {
                    old(self).display_name@
                } else {
                    n@
                },
                None => old(self).display_name@,
            }),
            final(self).instance_type == old(self).instance_type,
            final(self).assign_public_ip == old(self).assign_public_ip,
            final(self).boot_volume_size_gb == old(self).boot_volume_size_gb,
            final(self).tags == old(self).tags,
    {
        if let Some(n) = name {
            if !is_blank_str(n.as_str()) {
                self.display_name = n;
            }
        }
    }
}

/// The instance to launch for a configuration file: AMD Micro when the type
/// is `amd`, otherwise ARM Flex (2 OCPUs and 12 GB when unset); the public
/// IP choice and boot volume size from the file; tagged
/// `managed-by = cloud-manage-rs`.
pub open spec fn instance_config_for(c: InstanceConfigFile, r: InstanceConfig) -> bool {
    &&& r.wf()
    &&& r.instance_type == (if c.instance.instance_type@ == "amd"@ {
        AlwaysFreeInstanceType::AmdMicro
    } else {
        AlwaysFreeInstanceType::ArmFlex {
            ocpus: match c.instance.arm_ocpus {
                Some(o) => o,
                None => 2u8,
            },
            memory_gb: match c.instance.arm_memory_gb {
                Some(m) => m,
                None => 12u8,
            },
        }
    })
    &&& r.display_name@ == c.instance.display_name@
    &&& r.assign_public_ip == c.network.assign_public_ip
    &&& r.boot_volume_size_gb == Some(c.instance.boot_volume_size_gb)
    &&& r.tags_view() == Some(
        Map::<Seq<char>, Seq<char>>::empty().insert("managed-by"@, "cloud-manage-rs"@),
    )
}

/// Builds the instance to launch from the configuration file.
pub fn build_instance_config(config: &InstanceConfigFile) -> (r: InstanceConfig)
    ensures
        instance_config_for(*config, r),
{
    let base = if str_eq(config.instance.instance_type.as_str(), "amd") {
        InstanceConfig::amd_micro(config.instance.display_name.as_str())
    } else {
        let ocpus = match config.instance.arm_ocpus {
            Some(o) => o,
            None => 2,
        };
        let memory = match config.instance.arm_memory_gb {
            Some(m) => m,
            None => 12,
        };
        InstanceConfig::arm_flex(config.instance.display_name.as_str(), ocpus, memory)
    };
    base.with_public_ip(config.network.assign_public_ip).with_boot_volume_size(
        config.instance.boot_volume_size_gb,
    ).with_tag("managed-by", "cloud-manage-rs")
}

// ---------------------------------------------------------------------------
// Launch request
// ---------------------------------------------------------------------------

/// The launch request for an instance: the configured placement and image
/// for the shape, a boot volume size only when it is at least 50 GB, a VNIC
/// named `{name}-vnic` on the configured subnet, the SSH key as
/// `ssh_authorized_keys` metadata, the ARM shape configuration, and an
/// IPv6 address request only when IPv6 is on and an address is set.
pub open spec fn launch_details_for(
    f: InstanceConfigFile,
    c: InstanceConfig,
    d: LaunchInstanceDetails,
) -> bool {
    &&& d.availability_domain@ == f.oracle.availability_domain@
    &&& d.compartment_id@ == f.oracle.compartment_id@
    &&& d.shape@ == shape_name(c.instance_type)
    &&& (d.source_details matches InstanceSourceDetails::Image { image_id, boot_volume_size_in_gbs }
        && image_id@ == (if c.instance_type is AmdMicro {
        f.oracle.image_id_amd@
    } else {
        f.oracle.image_id_arm@
    }) && boot_volume_size_in_gbs == (match c.boot_volume_size_gb {
        Some(s) => if s >= 50 {
            Some(s)
        } else {
            None
        },
        None => None,
    }))
    &&& (d.create_vnic_details matches Some(v) && v.subnet_id@ == f.oracle.subnet_id@
        && v.assign_public_ip == Some(c.assign_public_ip) && opt_view(v.display_name) == Some(
        c.display_name@ + "-vnic"@,
    ) && opt_view(v.hostname_label) == opt_view(f.network.hostname_label) && opt_view(
        v.private_ip,
    ) == opt_view(f.network.private_ip) && v.assign_ipv6_ip == Some(f.network.assign_ipv6)
        && ipv6_request_for(f, v.ipv6_address_ipv6_subnet_cidr_pair_details))
    &&& opt_view(d.display_name) == Some(c.display_name@)
    &&& d.hostname_label is None
    &&& (d.metadata matches Some(m) && keys_distinct(m@) && pairs_map(m@) == Map::<
        Seq<char>,
        Seq<char>,
    >::empty().insert("ssh_authorized_keys"@, f.oracle.ssh_public_key@))
    &&& (match c.instance_type {
        AlwaysFreeInstanceType::AmdMicro => d.shape_config is None,
        AlwaysFreeInstanceType::ArmFlex { ocpus, memory_gb } => d.shape_config matches Some(s)
            && s.ocpus == Some(ocpus) && s.memory_in_gbs == Some(memory_gb),
    })
    &&& (match (d.freeform_tags, c.tags) {
        (Some(a), Some(b)) => keys_distinct(a@) && pairs_map(a@) == pairs_map(b@),
        (None, None) => true,
        _ => false,
    })
}

/// The IPv6 address request of a VNIC.
pub open spec fn ipv6_request_for(f: InstanceConfigFile, r: Option<Vec<Ipv6AddressDetails>>) -> bool {
    if f.network.assign_ipv6 && f.network.ipv6_address is Some {
        r matches Some(v) && v@.len() == 1 && opt_view(v@[0].ipv6_address) == opt_view(
            f.network.ipv6_address,
        ) && v@[0].ipv6_subnet_cidr is None
    } else {
        r is None
    }
}

proof fn lemma_copy_pairs_map(a: Seq<(String, String)>, b: Seq<(String, String)>)
    requires
        a.len() == b.len(),
        forall|i: int| 0 <= i < a.len() ==> (#[trigger] a[i]).0@ == b[i].0@ && a[i].1@ == b[i].1@,
    ensures
        pairs_map(a) == pairs_map(b),
    decreases a.len(),
{
    if a.len() > 0 {
        lemma_copy_pairs_map(a.drop_last(), b.drop_last());
        assert(a.last() == a[a.len() - 1]);
        assert(b.last() == b[b.len() - 1]);
    }
}

proof fn lemma_copy_keys_distinct(a: Seq<(String, String)>, b: Seq<(String, String)>)
    requires
        keys_distinct(b),
        a.len() == b.len(),
        forall|i: int| 0 <= i < a.len() ==> (#[trigger] a[i]).0@ == b[i].0@ && a[i].1@ == b[i].1@,
    ensures
        keys_distinct(a),
{
    assert forall|i: int, j: int|
        0 <= i < a.len() && 0 <= j < a.len() && i != j implies (#[trigger] a[i]).0@ != (
    #[trigger] a[j]).0@ by {
        assert(b[i].0@ != b[j].0@);
    }
}

/// Builds the launch request for `config`, after checking the Always Free
/// limits (their message is the error).
pub fn build_launch_details(file: &InstanceConfigFile, config: &InstanceConfig) -> (r: Result<
    LaunchInstanceDetails,
    String,
>)
    requires
        config.wf(),
    ensures
        match validation_error(config.instance_type) {
            Some(m) => r matches Err(e) && e@ == m,
            None => r matches Ok(d) && launch_details_for(*file, *config, d),
        },
{
    config.instance_type.validate()?;
    let boot_volume_size = match config.boot_volume_size_gb {
        Some(s) => if s >= 50 {
            Some(s)
        } else {
            None
        },
        None => None,
    };
    let ipv6_details = if file.network.assign_ipv6 {
        match &file.network.ipv6_address {
            Some(addr) => {
                let mut v: Vec<Ipv6AddressDetails> = Vec::new();
                v.push(
                    Ipv6AddressDetails {
                        ipv6_address: Some(copy_string(addr)),
                        ipv6_subnet_cidr: None,
                    },
                );
                Some(v)
            },
            None => None,
        }
    } else {
        None
    };
    let image_id = match config.instance_type {
        AlwaysFreeInstanceType::AmdMicro => copy_string(&file.oracle.image_id_amd),
        AlwaysFreeInstanceType::ArmFlex { .. } => copy_string(&file.oracle.image_id_arm),
    };
    let mut metadata: Vec<(String, String)> = Vec::new();
    insert_pair(
        &mut metadata,
        String::from_str("ssh_authorized_keys"),
        copy_string(&file.oracle.ssh_public_key),
    );
    proof {
        assert(pairs_map(Seq::<(String, String)>::empty()) =~= Map::<
            Seq<char>,
            Seq<char>,
        >::empty());
    }
    let shape_config = match config.instance_type {
        AlwaysFreeInstanceType::AmdMicro => None,
        AlwaysFreeInstanceType::ArmFlex { ocpus, memory_gb } => Some(
            LaunchInstanceShapeConfigDetails { ocpus: Some(ocpus), memory_in_gbs: Some(memory_gb) },
        ),
    };
    let freeform_tags = match &config.tags {
        Some(t) => {
            let c = copy_pairs(t);
            proof {
                lemma_copy_pairs_map(c@, t@);
                lemma_copy_keys_distinct(c@, t@);
            }
            Some(c)
        },
        None => None,
    };
    let vnic = CreateVnicDetails {
        subnet_id: copy_string(&file.oracle.subnet_id),
        assign_public_ip: Some(config.assign_public_ip),
        display_name: Some(concat2(config.display_name.as_str(), "-vnic")),
        hostname_label: copy_opt_string(&file.network.hostname_label),
        private_ip: copy_opt_string(&file.network.private_ip),
        assign_ipv6_ip: Some(file.network.assign_ipv6),
        ipv6_address_ipv6_subnet_cidr_pair_details: ipv6_details,
    };
    Ok(
        LaunchInstanceDetails {
            availability_domain: copy_string(&file.oracle.availability_domain),
            compartment_id: copy_string(&file.oracle.compartment_id),
            shape: String::from_str(config.instance_type.shape()),
            source_details: InstanceSourceDetails::Image {
                image_id,
                boot_volume_size_in_gbs: boot_volume_size,
            },
            create_vnic_details: Some(vnic),
            display_name: Some(copy_string(&config.display_name)),
            hostname_label: None,
            metadata: Some(metadata),
            shape_config,
            freeform_tags,
        },
    )
}

// ---------------------------------------------------------------------------
// Public IPv4 targets
// ---------------------------------------------------------------------------

/// Result of replacing an instance's public IPv4 address.
#[derive(Debug, Clone)]
pub struct PublicIpRefreshResult {
    pub old_public_ip: Option<String>,
    pub new_public_ip: String,
}

/// An instance and the network identifiers needed to replace its public
/// IPv4 address.
#[derive(Debug, Clone)]
pub struct PublicIpv4Target {
    pub instance_id: String,
    pub display_name: Option<String>,
    pub lifecycle_state: LifecycleState,
    pub private_ip_id: String,
    pub public_ip_id: Option<String>,
    pub public_ip: Option<String>,
    pub public_ip_error: Option<String>,
    pub vnic_display_name: Option<String>,
    pub compartment_id: String,
}

/// The primary attachment: NIC index 0 with a VNIC id.
pub open spec fn is_primary_attachment(a: VnicAttachment) -> bool {
    a.nic_index == Some(0i32) && a.vnic_id is Some
}

/// The attachment chosen for an instance: the first primary one, else the
/// first with a VNIC id.
pub open spec fn chosen_attachment(s: Seq<VnicAttachment>, i: int) -> bool {
    &&& 0 <= i < s.len()
    &&& s[i].vnic_id is Some
    &&& ((is_primary_attachment(s[i]) && forall|k: int| 0 <= k < i ==> !is_primary_attachment(
        #[trigger] s[k],
    )) || ((forall|k: int| 0 <= k < s.len() ==> !is_primary_attachment(#[trigger] s[k])) && forall|
        k: int,
    | 0 <= k < i ==> (#[trigger] s[k]).vnic_id is None))
}

/// Picks the VNIC of an instance from its attachments.
pub fn pick_vnic_id(attachments: &[VnicAttachment]) -> (r: Result<String, String>)
    ensures
        match r {
            Ok(id) => exists|i: int| chosen_attachment(attachments@, i) && opt_view(
                #[trigger] attachments@[i].vnic_id,
            ) == Some(id@),
            Err(e) => (forall|k: int| 0 <= k < attachments@.len() ==> (
            #[trigger] attachments@[k]).vnic_id is None) && e@
                == "no VNIC attachment found for instance"@,
        },
{
    let n = attachments.len();
    let mut i: usize = 0;
    while i < n
        invariant
            n == attachments@.len(),
            i <= n,
            forall|k: int| 0 <= k < i ==> !is_primary_attachment(#[trigger] attachments@[k]),
        decreases n - i,
    {
        let a = &attachments[i];
        if a.nic_index == Some(0i32) {
            if let Some(id) = &a.vnic_id {
                proof {
                    assert(chosen_attachment(attachments@, i as int));
                }
                return Ok(copy_string(id));
            }
        }
        i = i + 1;
    }
    let mut j: usize = 0;
    while j < n
        invariant
            n == attachments@.len(),
            j <= n,
            forall|k: int| 0 <= k < n ==> !is_primary_attachment(#[trigger] attachments@[k]),
            forall|k: int| 0 <= k < j ==> (#[trigger] attachments@[k]).vnic_id is None,
        decreases n - j,
    {
        if let Some(id) = &attachments[j].vnic_id {
            proof {
                assert(chosen_attachment(attachments@, j as int));
            }
            return Ok(copy_string(id));
        }
        j = j + 1;
    }
    Err(String::from_str("no VNIC attachment found for instance"))
}

/// The private IP chosen on a VNIC: the first primary one, else the first.
pub open spec fn chosen_private_ip(s: Seq<PrivateIp>, i: int) -> bool {
    &&& 0 <= i < s.len()
    &&& ((s[i].is_primary && forall|k: int| 0 <= k < i ==> !(#[trigger] s[k]).is_primary) || (
    i == 0 && forall|k: int| 0 <= k < s.len() ==> !(#[trigger] s[k]).is_primary))
}

/// Picks the private IP of a VNIC; its index is returned.
pub fn pick_private_ip(ips: &[PrivateIp]) -> (r: Result<usize, String>)
    ensures
        match r {
            Ok(i) => chosen_private_ip(ips@, i as int),
            Err(e) => ips@.len() == 0 && e@ == "no private IPv4 found on instance VNIC"@,
        },
{
    let n = ips.len();
    let mut i: usize = 0;
    while i < n
        invariant
            n == ips@.len(),
            i <= n,
            forall|k: int| 0 <= k < i ==> !(#[trigger] ips@[k]).is_primary,
        decreases n - i,
    {
        if ips[i].is_primary {
            return Ok(i);
        }
        i = i + 1;
    }
    if n > 0 {
        Ok(0)
    } else {
        Err(String::from_str("no private IPv4 found on instance VNIC"))
    }
}

/// The public IP fields of a target: when the VNIC has an address and its
/// lookup succeeded, that public IP; when the lookup failed, no id and the
/// failure as error; the address falls back to the VNIC's own.
pub open spec fn target_public_fields(
    vnic_public_ip: Option<Seq<char>>,
    lookup: Option<Result<PublicIp, String>>,
    t: PublicIpv4Target,
) -> bool {
    match (vnic_public_ip, lookup) {
        (Some(_), Some(Ok(p))) => opt_view(t.public_ip_id) == Some(p.id@) && opt_view(t.public_ip)
            == Some(p.ip_address@) && t.public_ip_error is None,
        (Some(a), Some(Err(e))) => t.public_ip_id is None && opt_view(t.public_ip) == Some(a)
            && opt_view(t.public_ip_error) == Some("public IP id lookup failed: "@ + e@),
        _ => t.public_ip_id is None && opt_view(t.public_ip) == vnic_public_ip
            && t.public_ip_error is None,
    }
}

/// Composes the target of an instance from its VNIC, the chosen private IP
/// and the lookup of the VNIC's public address (`None` when not looked up).
pub fn public_ipv4_target(
    instance: &Instance,
    private_ip_id: &str,
    vnic: &Vnic,
    lookup: Option<Result<PublicIp, String>>,
) -> (r: PublicIpv4Target)
    ensures
        r.instance_id@ == instance.id@,
        opt_view(r.display_name) == opt_view(instance.display_name),
        r.lifecycle_state == instance.lifecycle_state,
        r.private_ip_id@ == private_ip_id@,
        opt_view(r.vnic_display_name) == opt_view(vnic.display_name),
        r.compartment_id@ == instance.compartment_id@,
        target_public_fields(opt_view(vnic.public_ip), lookup, r),
{
    let (public_ip_id, public_ip, public_ip_error) = match (&vnic.public_ip, lookup) {
        (Some(_), Some(Ok(p))) => (Some(p.id), Some(p.ip_address), None),
        (Some(a), Some(Err(e))) => (
            None,
            Some(copy_string(a)),
            Some(concat2("public IP id lookup failed: ", e.as_str())),
        ),
        _ => (None, copy_opt_string(&vnic.public_ip), None),
    };
    PublicIpv4Target {
        instance_id: copy_string(&instance.id),
        display_name: copy_opt_string(&instance.display_name),
        lifecycle_state: instance.lifecycle_state,
        private_ip_id: String::from_str(private_ip_id),
        public_ip_id,
        public_ip,
        public_ip_error,
        vnic_display_name: copy_opt_string(&vnic.display_name),
        compartment_id: copy_string(&instance.compartment_id),
    }
}

/// A public IPv4 address is only replaced on a running instance.
pub fn check_refresh_state(target: &PublicIpv4Target) -> (r: Result<(), String>)
    ensures
        target.lifecycle_state == LifecycleState::Running ==> r is Ok,
        target.lifecycle_state != LifecycleState::Running ==> (r matches Err(e) && e@
            == "instance must be RUNNING before refreshing public IPv4 (current: "@
            + state_debug_name(target.lifecycle_state) + ")"@),
{
    if target.lifecycle_state != LifecycleState::Running {
        return Err(
            concat3(
                "instance must be RUNNING before refreshing public IPv4 (current: ",
                target.lifecycle_state.debug_name(),
                ")",
            ),
        );
    }
    Ok(())
}

/// The steps of a public IPv4 refresh: release the current address (when
/// its id is known), then create an ephemeral one on the private IP.
#[derive(Debug, Clone)]
pub struct RefreshPlan {
    pub delete_public_ip_id: Option<String>,
    pub create: CreatePublicIpDetails,
}

/// Plans the refresh of a target. An address whose id could not be loaded
/// cannot be released, so the refresh is refused.
pub fn plan_public_ip_refresh(target: &PublicIpv4Target) -> (r: Result<RefreshPlan, String>)
    ensures
        (target.public_ip is Some && target.public_ip_id is None) ==> (r matches Err(e) && e@
            == "current public IPv4 was found, but its OCI public IP id could not be loaded; refusing to refresh without a deletable public IP id"@),
        !(target.public_ip is Some && target.public_ip_id is None) ==> (r matches Ok(p) && opt_view(
            p.delete_public_ip_id,
        ) == opt_view(target.public_ip_id) && p.create.compartment_id@ == target.compartment_id@
            && p.create.lifetime@ == "EPHEMERAL"@ && opt_view(p.create.private_ip_id) == Some(
            target.private_ip_id@,
        ) && opt_view(p.create.display_name) == (match target.vnic_display_name {
            Some(n) => Some(n@ + "-refreshed-public-ip"@),
            None => None,
        })),
{
    if target.public_ip.is_some() && target.public_ip_id.is_none() {
        return Err(
            String::from_str(
                "current public IPv4 was found, but its OCI public IP id could not be loaded; refusing to refresh without a deletable public IP id",
            ),
        );
    }
    let display_name = match &target.vnic_display_name {
        Some(n) => Some(concat2(n.as_str(), "-refreshed-public-ip")),
        None => None,
    };
    Ok(
        RefreshPlan {
            delete_public_ip_id: copy_opt_string(&target.public_ip_id),
            create: CreatePublicIpDetails {
                compartment_id: copy_string(&target.compartment_id),
                lifetime: String::from_str("EPHEMERAL"),
                private_ip_id: Some(copy_string(&target.private_ip_id)),
                display_name,
            },
        },
    )
}

/// The outcome of a refresh: the old address of the target and the new one.
pub fn refresh_result(target: &PublicIpv4Target, new_public_ip: String) -> (r: PublicIpRefreshResult)
    ensures
        opt_view(r.old_public_ip) == opt_view(target.public_ip),
        r.new_public_ip@ == new_public_ip@,
{
    PublicIpRefreshResult { old_public_ip: copy_opt_string(&target.public_ip), new_public_ip }
}

/// What to do after reading an instance's state while waiting for it.
#[derive(Debug, Clone)]
pub enum WaitStep {
    /// The instance runs.
    Done,
    /// The instance is going away; the message is the error.
    Failed(String),
    /// Poll again later.
    Retry,
}

/// Decides a waiting step from the instance state.
pub fn wait_step(state: LifecycleState) -> (r: WaitStep)
    ensures
        state == LifecycleState::Running ==> r is Done,
        (state == LifecycleState::Terminated || state == LifecycleState::Terminating) ==> (
        r matches WaitStep::Failed(m) && m@ == "Instance terminated"@),
        !(state == LifecycleState::Running || state == LifecycleState::Terminated || state
            == LifecycleState::Terminating) ==> r is Retry,
{
    match state {
        LifecycleState::Running => WaitStep::Done,
        LifecycleState::Terminated | LifecycleState::Terminating => WaitStep::Failed(
            String::from_str("Instance terminated"),
        ),
        _ => WaitStep::Retry,
    }
}

/// Instances that are listed as refresh targets: all but terminated ones.
pub fn is_listed_state(state: LifecycleState) -> (b: bool)
    ensures
        b == (state != LifecycleState::Terminated),
{
    state != LifecycleState::Terminated
}

} // verus!
