//! Logic of the embedded web API: bearer-token checks, request validation
//! and the redacted views that responses carry.

use vstd::prelude::*;
use crate::cloudflare::{DnsRecord, DnsRecordRequest};
use crate::config::InstanceConfigFile;
use crate::oci_models::state_upper_name;
use crate::oracle::{PublicIpRefreshResult, PublicIpv4Target};
use crate::text::{copy_opt_string, copy_string, is_blank, is_blank_str, opt_view, strip_prefix_spec, strip_prefix_str};

verus! {

/// Compares two byte strings in time that depends only on their lengths.
pub fn constant_time_eq(a: &[u8], b: &[u8]) -> (r: bool)
    ensures
        r == (a@ == b@),
{
    if a.len() != b.len() {
        return false;
    }
    let n = a.len();
    let mut diff: u8 = 0;
    let mut i: usize = 0;
    while i < n
        invariant
            n == a@.len(),
            n == b@.len(),
            i <= n,
            (diff == 0) <==> (forall|k: int| 0 <= k < i ==> a@[k] == b@[k]),
        decreases n - i,
    {
        let x = a[i];
        let y = b[i];
        let d = diff;
        assert((d | (x ^ y)) == 0 <==> (d == 0 && x == y)) by (bit_vector);
        diff = diff | (x ^ y);
        i = i + 1;
    }
    proof {
        if diff == 0 {
            assert(a@ =~= b@);
        }
    }
    diff == 0
}

/// The token a request presents: a `Bearer` authorization header first,
/// else the `token` query parameter.
pub open spec fn presented_token(header: Option<Seq<char>>, query: Option<Seq<char>>) -> Option<
    Seq<char>,
> {
    let from_header = match header {
        Some(h) => strip_prefix_spec(h, "Bearer "@),
        None => None,
    };
    match from_header {
        Some(t) => Some(t),
        None => query,
    }
}

/// A request is allowed when no token is configured, or when it presents
/// exactly the configured token.
pub open spec fn authorized_spec(
    expected: Option<Seq<char>>,
    header: Option<Seq<char>>,
    query: Option<Seq<char>>,
) -> bool {
    match expected {
        None => true,
        Some(e) => presented_token(header, query) == Some(e),
    }
}

/// Decides whether an API request may proceed (`header` is the
/// `Authorization` value when it is valid text).
pub fn authorize(expected: Option<&str>, header: Option<&str>, query: Option<&str>) -> (r: bool)
    ensures
        r == authorized_spec(
            match expected {
                Some(e) => Some(e@),
                None => None,
            },
            match header {
                Some(h) => Some(h@),
                None => None,
            },
            match query {
                Some(q) => Some(q@),
                None => None,
            },
        ),
{
    let expected = match expected {
        None => return true,
        Some(e) => e,
    };
    let from_header = match header {
        Some(h) => strip_prefix_str(h, "Bearer "),
        None => None,
    };
    let provided: Option<String> = match from_header {
        Some(t) => Some(t),
        None => match query {
            Some(q) => Some(String::from_str(q)),
            None => None,
        },
    };
    match provided {
        Some(t) => {
            let same = constant_time_eq(t.as_str().as_bytes(), expected.as_bytes());
            proof {
                if same {
                    vstd::utf8::encode_utf8_decode_utf8(t@);
                    vstd::utf8::encode_utf8_decode_utf8(expected@);
                }
            }
            same
        },
        None => false,
    }
}

/// The TTL used when an upsert body gives none (automatic).
pub fn default_ttl() -> (r: u32)
    ensures
        r == 1,
{
    1
}

/// Body of `POST /api/instances`.
#[derive(Debug, Clone)]
pub struct CreateInstanceBody {
    pub display_name: Option<String>,
}

/// Response of `POST /api/instances`.
#[derive(Debug, Clone)]
pub struct CreateInstanceResponse {
    pub instance_id: String,
}

/// Body of `POST /api/instances/:id/refresh-ip`.
#[derive(Debug, Clone)]
pub struct RefreshIpBody {
    pub update_dns: bool,
}

/// Whether DNS records follow the new address; no body means no.
pub fn wants_dns_update(body: Option<RefreshIpBody>) -> (r: bool)
    ensures
        r == (match body {
            Some(b) => b.update_dns,
            None => false,
        }),
{
    match body {
        Some(b) => b.update_dns,
        None => false,
    }
}

/// A DNS record as the API shows it.
#[derive(Debug, Clone)]
pub struct DnsRecordView {
    pub id: String,
    pub name: String,
    pub content: String,
    pub record_type: String,
    pub ttl: u32,
    pub proxied: Option<bool>,
}

impl DnsRecordView {
    /// The view of a record.
    pub fn from_record(r: &DnsRecord) -> (v: Self)
        ensures
            v.id@ == r.id@,
            v.name@ == r.name@,
            v.content@ == r.content@,
            v.record_type@ == r.record_type@,
            v.ttl == r.ttl,
            v.proxied == r.proxied,
    {
        DnsRecordView {
            id: copy_string(&r.id),
            name: copy_string(&r.name),
            content: copy_string(&r.content),
            record_type: copy_string(&r.record_type),
            ttl: r.ttl,
            proxied: r.proxied,
        }
    }
}

/// Response of a public IPv4 refresh.
#[derive(Debug, Clone)]
pub struct RefreshIpResponse {
    pub old_public_ip: Option<String>,
    pub new_public_ip: String,
    pub dns_updated: Vec<DnsRecordView>,
}

/// The response for a refresh and the records that were rewritten.
pub fn refresh_response(result: PublicIpRefreshResult, dns_updated: Vec<DnsRecordView>) -> (r:
    RefreshIpResponse)
    ensures
        opt_view(r.old_public_ip) == opt_view(result.old_public_ip),
        r.new_public_ip@ == result.new_public_ip@,
        r.dns_updated@ == dns_updated@,
{
    RefreshIpResponse {
        old_public_ip: result.old_public_ip,
        new_public_ip: result.new_public_ip,
        dns_updated,
    }
}

/// Query of `GET /api/dns`.
#[derive(Debug, Clone)]
pub struct DnsListQuery {
    pub record_type: Option<String>,
    pub name: Option<String>,
}

/// Body of `POST /api/dns`.
#[derive(Debug, Clone)]
pub struct UpsertDnsBody {
    pub record_type: String,
    pub name: String,
    pub content: String,
    pub ttl: u32,
    pub proxied: Option<bool>,
}

/// Validates an upsert body: name and content must not be blank.
pub fn validate_upsert(body: UpsertDnsBody) -> (r: Result<DnsRecordRequest, String>)
    ensures
        (is_blank(body.name@) || is_blank(body.content@)) ==> (r matches Err(e) && e@
            == "name and content are required"@),
        !(is_blank(body.name@) || is_blank(body.content@)) ==> (r matches Ok(q) && q.record_type@
            == body.record_type@ && q.name@ == body.name@ && q.content@ == body.content@ && q.ttl
            == body.ttl && q.proxied == body.proxied),
{
    if is_blank_str(body.name.as_str()) || is_blank_str(body.content.as_str()) {
        return Err(String::from_str("name and content are required"));
    }
    Ok(
        DnsRecordRequest {
            record_type: body.record_type,
            name: body.name,
            content: body.content,
            ttl: body.ttl,
            proxied: body.proxied,
        },
    )
}

/// An instance as the API lists it.
#[derive(Debug, Clone)]
pub struct InstanceTargetView {
    pub instance_id: String,
    pub display_name: Option<String>,
    pub lifecycle_state: String,
    pub public_ip: Option<String>,
    pub public_ip_error: Option<String>,
    pub vnic_display_name: Option<String>,
    pub compartment_id: String,
}

impl InstanceTargetView {
    /// The view of a target; the state is its upper-case name.
    pub fn from_target(t: &PublicIpv4Target) -> (v: Self)
        ensures
            v.instance_id@ == t.instance_id@,
            opt_view(v.display_name) == opt_view(t.display_name),
            v.lifecycle_state@ == state_upper_name(t.lifecycle_state),
            opt_view(v.public_ip) == opt_view(t.public_ip),
            opt_view(v.public_ip_error) == opt_view(t.public_ip_error),
            opt_view(v.vnic_display_name) == opt_view(t.vnic_display_name),
            v.compartment_id@ == t.compartment_id@,
    {
        InstanceTargetView {
            instance_id: copy_string(&t.instance_id),
            display_name: copy_opt_string(&t.display_name),
            lifecycle_state: String::from_str(t.lifecycle_state.upper_name()),
            public_ip: copy_opt_string(&t.public_ip),
            public_ip_error: copy_opt_string(&t.public_ip_error),
            vnic_display_name: copy_opt_string(&t.vnic_display_name),
            compartment_id: copy_string(&t.compartment_id),
        }
    }
}

/// Oracle settings shown by `GET /api/config`.
#[derive(Debug, Clone)]
pub struct OracleView {
    pub region: String,
    pub tenancy: String,
    pub user: String,
    pub compartment_id: String,
    pub availability_domain: String,
    pub subnet_id: String,
    pub image_id_amd: String,
    pub image_id_arm: String,
}

/// Instance settings shown by `GET /api/config`.
#[derive(Debug, Clone)]
pub struct InstanceView {
    pub instance_type: String,
    pub display_name: String,
    pub arm_ocpus: Option<u8>,
    pub arm_memory_gb: Option<u8>,
    pub boot_volume_size_gb: i64,
}

/// Network settings shown by `GET /api/config`.
#[derive(Debug, Clone)]
pub struct NetworkView {
    pub assign_public_ip: bool,
    pub assign_ipv6: bool,
    pub private_ip: Option<String>,
    pub ipv6_address: Option<String>,
    pub hostname_label: Option<String>,
}

/// Cloudflare settings shown by `GET /api/config`: the token itself is
/// never shown, only whether one is set.
#[derive(Debug, Clone)]
pub struct CloudflareView {
    pub zone_name: String,
    pub record_name: Option<String>,
    pub api_token_set: bool,
}

/// The redacted configuration, without the snipe timing.
#[derive(Debug, Clone)]
pub struct RedactedConfig {
    pub oracle: OracleView,
    pub instance: InstanceView,
    pub network: NetworkView,
    pub cloudflare: CloudflareView,
}

/// Builds the redacted view of a configuration.
pub fn redacted_config(cfg: &InstanceConfigFile) -> (r: RedactedConfig)
    ensures
        r.oracle.region@ == cfg.oci.region@,
        r.oracle.tenancy@ == cfg.oci.tenancy@,
        r.oracle.user@ == cfg.oci.user@,
        r.oracle.compartment_id@ == cfg.oracle.compartment_id@,
        r.oracle.availability_domain@ == cfg.oracle.availability_domain@,
        r.oracle.subnet_id@ == cfg.oracle.subnet_id@,
        r.oracle.image_id_amd@ == cfg.oracle.image_id_amd@,
        r.oracle.image_id_arm@ == cfg.oracle.image_id_arm@,
        r.instance.instance_type@ == cfg.instance.instance_type@,
        r.instance.display_name@ == cfg.instance.display_name@,
        r.instance.arm_ocpus == cfg.instance.arm_ocpus,
        r.instance.arm_memory_gb == cfg.instance.arm_memory_gb,
        r.instance.boot_volume_size_gb == cfg.instance.boot_volume_size_gb,
        r.network.assign_public_ip == cfg.network.assign_public_ip,
        r.network.assign_ipv6 == cfg.network.assign_ipv6,
        opt_view(r.network.private_ip) == opt_view(cfg.network.private_ip),
        opt_view(r.network.ipv6_address) == opt_view(cfg.network.ipv6_address),
        opt_view(r.network.hostname_label) == opt_view(cfg.network.hostname_label),
        r.cloudflare.zone_name@ == cfg.cloudflare.zone_name@,
        opt_view(r.cloudflare.record_name) == opt_view(cfg.cloudflare.record_name),
        r.cloudflare.api_token_set == !is_blank(cfg.cloudflare.api_token@),
{
    RedactedConfig {
        oracle: OracleView {
            region: copy_string(&cfg.oci.region),
            tenancy: copy_string(&cfg.oci.tenancy),
            user: copy_string(&cfg.oci.user),
            compartment_id: copy_string(&cfg.oracle.compartment_id),
            availability_domain: copy_string(&cfg.oracle.availability_domain),
            subnet_id: copy_string(&cfg.oracle.subnet_id),
            image_id_amd: copy_string(&cfg.oracle.image_id_amd),
            image_id_arm: copy_string(&cfg.oracle.image_id_arm),
        },
        instance: InstanceView {
            instance_type: copy_string(&cfg.instance.instance_type),
            display_name: copy_string(&cfg.instance.display_name),
            arm_ocpus: cfg.instance.arm_ocpus,
            arm_memory_gb: cfg.instance.arm_memory_gb,
            boot_volume_size_gb: cfg.instance.boot_volume_size_gb,
        },
        network: NetworkView {
            assign_public_ip: cfg.network.assign_public_ip,
            assign_ipv6: cfg.network.assign_ipv6,
            private_ip: copy_opt_string(&cfg.network.private_ip),
            ipv6_address: copy_opt_string(&cfg.network.ipv6_address),
            hostname_label: copy_opt_string(&cfg.network.hostname_label),
        },
        cloudflare: CloudflareView {
            zone_name: copy_string(&cfg.cloudflare.zone_name),
            record_name: copy_opt_string(&cfg.cloudflare.record_name),
            api_token_set: !is_blank_str(cfg.cloudflare.api_token.as_str()),
        },
    }
}

} // verus!
