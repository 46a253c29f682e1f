//! Decisions of the configuration wizard: defaults offered for each
//! prompt, OCID checks, address prefixes, Cloudflare domain parsing and the
//! composition of quick configuration answers.

use vstd::prelude::*;
use crate::config::{
    instance_type_label, optional_line, push_optional, str_is_amd, yes_no, CloudflareConfig,
    InstanceConfigFile,
};
use crate::oci_models::{AvailabilityDomain, Image, Subnet};
use crate::operations::{
    chars_le, lemma_seq_le_antisym, lemma_seq_le_refl, lemma_seq_le_total, lemma_seq_le_trans, seq_le,
};
use crate::text::{
    concat2, concat3, contains_seq, copy_string, opt_view, split_once_chars, split_once_spec,
    str_chars, str_contains, str_eq, str_starts_with, string_of, strip_prefix_spec,
    strip_prefix_str, sub_chars, to_lowercase, lowercase, trim, trim_chars, utf8_len,
    utf8_len_of, is_ws, lemma_trim_unchanged, lemma_first_index_unique, decimal, decimal_string,
    signed_decimal, signed_decimal_string,
};

verus! {

/// The UTF-8 length of a string (what `str::len` reports).
pub open spec fn byte_len(s: Seq<char>) -> nat {
    utf8_len(s)
}

/// An OCID of the given kind that is not a placeholder: it starts with
/// `ocid1.{kind}.`, has no `your-` and is more than ten bytes longer than
/// that prefix.
pub open spec fn is_valid_ocid_spec(s: Seq<char>, kind: Seq<char>) -> bool {
    let prefix = "ocid1."@ + kind + "."@;
    &&& prefix.is_prefix_of(s)
    &&& !contains_seq(s, "your-"@)
    &&& byte_len(s) > byte_len(prefix) + 10
}

/// Checks that `s` is a real OCID of the given kind.
pub fn is_valid_ocid(s: &str, kind: &str) -> (b: bool)
    ensures
        b == is_valid_ocid_spec(s@, kind@),
{
    let prefix = concat3("ocid1.", kind, ".");
    let p = prefix.as_str();
    let long_enough = utf8_len_of(s) > utf8_len_of(p) + 10;
    proof {
        assert(p@ == "ocid1."@ + kind@ + "."@);
    }
    str_starts_with(s, p) && !str_contains(s, "your-") && long_enough
}

/// The compartment offered first: the configured one when it is a real
/// compartment or tenancy OCID, else the tenancy of the OCI credentials
/// when set, else the configured value.
pub open spec fn candidate_compartment_spec(c: InstanceConfigFile) -> Seq<char> {
    if is_valid_ocid_spec(c.oracle.compartment_id@, "compartment"@) || is_valid_ocid_spec(
        c.oracle.compartment_id@,
        "tenancy"@,
    ) {
        c.oracle.compartment_id@
    } else if c.oci.tenancy@.len() > 0 {
        c.oci.tenancy@
    } else {
        c.oracle.compartment_id@
    }
}

/// Picks the compartment offered first.
pub fn candidate_compartment(config: &InstanceConfigFile) -> (r: String)
    ensures
        r@ == candidate_compartment_spec(*config),
{
    if is_valid_ocid(config.oracle.compartment_id.as_str(), "compartment") || is_valid_ocid(
        config.oracle.compartment_id.as_str(),
        "tenancy",
    ) {
        return copy_string(&config.oracle.compartment_id);
    }
    if !config.oci.tenancy.as_str().is_empty() {
        return copy_string(&config.oci.tenancy);
    }
    copy_string(&config.oracle.compartment_id)
}

/// The address part of a CIDR (before the first `/`).
pub open spec fn cidr_address(cidr: Seq<char>) -> Seq<char> {
    split_once_spec(cidr, '/').0
}

/// The first two octets of an IPv4 CIDR followed by `.`, when the address
/// has at least three dot-separated parts.
pub open spec fn ipv4_prefix_spec(cidr: Seq<char>) -> Option<Seq<char>> {
    let ip = cidr_address(cidr);
    match split_once_spec(ip, '.').1 {
        Some(rest) => match split_once_spec(rest, '.').1 {
            Some(_) => Some(split_once_spec(ip, '.').0 + "."@ + split_once_spec(rest, '.').0 + "."@),
            None => None,
        },
        None => None,
    }
}

/// The IPv4 prefix that the wizard locks in front of a private address.
pub fn extract_ipv4_prefix(cidr: &str) -> (r: Option<String>)
    ensures
        opt_view(r) == ipv4_prefix_spec(cidr@),
{
    let c = str_chars(cidr);
    let (ip, _) = split_once_chars(c.as_slice(), '/');
    let (p0, rest) = split_once_chars(ip.as_slice(), '.');
    match rest {
        Some(rest) => {
            let (p1, tail) = split_once_chars(rest.as_slice(), '.');
            match tail {
                Some(_) => {
                    let a = string_of(p0.as_slice());
                    let b = string_of(p1.as_slice());
                    let x = concat3(a.as_str(), ".", b.as_str());
                    Some(concat2(x.as_str(), "."))
                },
                None => None,
            }
        },
        None => None,
    }
}

/// `s` without its trailing `:` characters.
pub open spec fn trim_end_colons(s: Seq<char>) -> Seq<char>
    decreases s.len(),
{
    if s.len() > 0 && s.last() == ':' {
        trim_end_colons(s.drop_last())
    } else {
        s
    }
}

/// The IPv6 address of a CIDR without trailing colons, followed by one `:`,
/// unless nothing is left.
pub open spec fn ipv6_prefix_spec(cidr: Seq<char>) -> Option<Seq<char>> {
    let t = trim_end_colons(cidr_address(cidr));
    if t.len() == 0 {
        None
    } else {
        Some(t + ":"@)
    }
}

/// The IPv6 prefix that the wizard locks in front of an address
/// (`2001:db8:1234:5678::/64` gives `2001:db8:1234:5678:`).
pub fn extract_ipv6_prefix(cidr: &str) -> (r: Option<String>)
    ensures
        opt_view(r) == ipv6_prefix_spec(cidr@),
{
    let c = str_chars(cidr);
    let (ip, _) = split_once_chars(c.as_slice(), '/');
    let mut j = ip.len();
    proof {
        assert(ip@.subrange(0, j as int) =~= ip@);
    }
    while j > 0 && ip[j - 1] == ':'
        invariant
            j <= ip@.len(),
            trim_end_colons(ip@) == trim_end_colons(ip@.subrange(0, j as int)),
        decreases j,
    {
        proof {
            assert(ip@.subrange(0, j as int).drop_last() =~= ip@.subrange(0, j - 1));
        }
        j = j - 1;
    }
    proof {
        if j > 0 {
            assert(ip@.subrange(0, j as int).last() == ip@[j - 1]);
        }
    }
    if j == 0 {
        return None;
    }
    let t = sub_chars(ip.as_slice(), 0, j);
    let ts = string_of(t.as_slice());
    Some(concat2(ts.as_str(), ":"))
}

/// The part of a remembered address typed after a locked prefix: the whole
/// address when there is no prefix or it does not start with it.
pub open spec fn default_suffix_spec(prefix: Seq<char>, full: Seq<char>) -> Seq<char> {
    if prefix.len() == 0 {
        full
    } else {
        match strip_prefix_spec(full, prefix) {
            Some(rest) => rest,
            None => full,
        }
    }
}

/// Computes the suffix of a remembered address after a locked prefix.
pub fn default_suffix(prefix: &str, full: &str) -> (r: String)
    ensures
        r@ == default_suffix_spec(prefix@, full@),
{
    if prefix.is_empty() {
        return String::from_str(full);
    }
    match strip_prefix_str(full, prefix) {
        Some(rest) => rest,
        None => String::from_str(full),
    }
}

// ---------------------------------------------------------------------------
// Cloudflare answers
// ---------------------------------------------------------------------------

/// The domain offered by default: `record@zone` when both are known, else
/// the zone.
pub open spec fn default_cloudflare_domain_spec(c: CloudflareConfig) -> Seq<char> {
    match c.record_name {
        Some(r) => if c.zone_name@.len() > 0 {
            r@ + "@"@ + c.zone_name@
        } else {
            c.zone_name@
        },
        None => c.zone_name@,
    }
}

/// Computes the domain offered by default.
pub fn default_cloudflare_domain(config: &CloudflareConfig) -> (r: String)
    ensures
        r@ == default_cloudflare_domain_spec(*config),
{
    match &config.record_name {
        Some(record) => if !config.zone_name.as_str().is_empty() {
            concat3(record.as_str(), "@", config.zone_name.as_str())
        } else {
            copy_string(&config.zone_name)
        },
        None => copy_string(&config.zone_name),
    }
}

/// A domain answer: `record@zone` gives the record (unless blank) and the
/// zone, both trimmed; anything else is a zone.
pub open spec fn parse_cloudflare_domain_spec(value: Seq<char>) -> (Option<Seq<char>>, Seq<char>) {
    let t = trim(value);
    match split_once_spec(t, '@').1 {
        Some(zone) => {
            let record = trim(split_once_spec(t, '@').0);
            (
                if record.len() == 0 {
                    None
                } else {
                    Some(record)
                },
                trim(zone),
            )
        },
        None => (None, t),
    }
}

/// Parses a domain answer into record name and zone name.
pub fn parse_cloudflare_domain(value: &str) -> (r: (Option<String>, String))
    ensures
        opt_view(r.0) == parse_cloudflare_domain_spec(value@).0,
        r.1@ == parse_cloudflare_domain_spec(value@).1,
{
    let v = str_chars(value);
    let t = trim_chars(v.as_slice());
    let (record, zone) = split_once_chars(t.as_slice(), '@');
    match zone {
        Some(zone) => {
            let record = trim_chars(record.as_slice());
            let zone = trim_chars(zone.as_slice());
            let record = if record.len() == 0 {
                None
            } else {
                Some(string_of(record.as_slice()))
            };
            (record, string_of(zone.as_slice()))
        },
        None => (None, string_of(t.as_slice())),
    }
}

/// The mask shown for a stored secret: nothing when there is none, else
/// eight asterisks.
pub open spec fn mask_spec(value: Seq<char>) -> Seq<char> {
    if value.len() == 0 {
        Seq::empty()
    } else {
        "********"@
    }
}

/// What the token prompt shows for a stored token.
pub fn mask_existing_secret(value: &str) -> (r: String)
    ensures
        r@ == mask_spec(value@),
{
    if value.is_empty() {
        String::new()
    } else {
        String::from_str("********")
    }
}

/// An answer made only of asterisks (the untouched mask, or nothing)
/// keeps the stored token.
pub open spec fn all_asterisks(s: Seq<char>) -> bool {
    forall|i: int| 0 <= i < s.len() ==> #[trigger] s[i] == '*'
}

/// The token kept for a token answer: the stored one when the answer is
/// only asterisks, else the answer.
pub open spec fn resolved_token(answer: Seq<char>, existing: Seq<char>) -> Seq<char> {
    if all_asterisks(answer) {
        existing
    } else {
        answer
    }
}

/// The token to store for a token answer.
pub fn resolve_api_token(answer: &str, existing: &str) -> (r: String)
    ensures
        r@ == resolved_token(answer@, existing@),
{
    let v = str_chars(answer);
    let n = v.len();
    let mut i: usize = 0;
    while i < n
        invariant
            n == v@.len(),
            v@ == answer@,
            i <= n,
            forall|k: int| 0 <= k < i ==> v@[k] == '*',
        decreases n - i,
    {
        if v[i] != '*' {
            return String::from_str(answer);
        }
        i = i + 1;
    }
    String::from_str(existing)
}

/// The Cloudflare settings from the token and domain answers.
pub fn cloudflare_settings(token_answer: &str, existing_token: &str, domain: &str) -> (r: CloudflareConfig)
    ensures
        r.api_token@ == resolved_token(token_answer@, existing_token@),
        opt_view(r.record_name) == parse_cloudflare_domain_spec(domain@).0,
        r.zone_name@ == parse_cloudflare_domain_spec(domain@).1,
{
    let api_token = resolve_api_token(token_answer, existing_token);
    let (record_name, zone_name) = parse_cloudflare_domain(domain);
    CloudflareConfig { api_token, zone_name, record_name }
}

/// A zone or record name that survives the `record@zone` round trip: not
/// empty, no surrounding whitespace, no `@`.
pub open spec fn clean_domain_part(s: Seq<char>) -> bool {
    &&& s.len() > 0
    &&& !is_ws(s[0])
    &&& !is_ws(s.last())
    &&& forall|i: int| 0 <= i < s.len() ==> s[i] != '@'
}

/// Accepting the offered defaults keeps the Cloudflare settings: the
/// masked token answer keeps the stored token, and the offered domain
/// parses back to the stored record and zone names.
pub proof fn law_cloudflare_defaults_kept(c: CloudflareConfig)
    requires
        clean_domain_part(c.zone_name@),
        match c.record_name {
            Some(r) => clean_domain_part(r@),
            None => true,
        },
    ensures
        resolved_token(mask_spec(c.api_token@), c.api_token@) == c.api_token@,
        parse_cloudflare_domain_spec(default_cloudflare_domain_spec(c)) == (
            opt_view(c.record_name),
            c.zone_name@,
        ),
{
    reveal_strlit("********");
    reveal_strlit("@");
    let z = c.zone_name@;
    lemma_trim_unchanged(z);
    match c.record_name {
        Some(r) => {
            let rv = r@;
            let s = rv + "@"@ + z;
            assert(default_cloudflare_domain_spec(c) == s);
            assert(s[0] == rv[0]);
            assert(s.last() == z.last());
            lemma_trim_unchanged(s);
            lemma_trim_unchanged(rv);
            let i = rv.len() as int;
            assert(s[i] == '@');
            assert forall|k: int| 0 <= k < i implies s[k] != '@' by {
                assert(s[k] == rv[k]);
            }
            lemma_first_index_unique(s, '@', i);
            assert(s.take(i) =~= rv);
            assert(s.skip(i + 1) =~= z);
        },
        None => {
            assert(default_cloudflare_domain_spec(c) == z);
            assert(!(exists|i: int| 0 <= i < z.len() && z[i] == '@'));
        },
    }
}

// ---------------------------------------------------------------------------
// Selection defaults
// ---------------------------------------------------------------------------

/// Position of the first availability domain named `name`, else 0.
pub fn default_domain_index(domains: &[AvailabilityDomain], name: &str) -> (r: usize)
    ensures
        (exists|i: int| 0 <= i < domains@.len() && (#[trigger] domains@[i]).name@ == name@) ==> (
        r < domains@.len() && domains@[r as int].name@ == name@ && forall|k: int|
            0 <= k < r ==> (#[trigger] domains@[k]).name@ != name@),
        !(exists|i: int| 0 <= i < domains@.len() && (#[trigger] domains@[i]).name@ == name@)
            ==> r == 0,
{
    let n = domains.len();
    let mut i: usize = 0;
    while i < n
        invariant
            n == domains@.len(),
            i <= n,
            forall|k: int| 0 <= k < i ==> (#[trigger] domains@[k]).name@ != name@,
        decreases n - i,
    {
        if str_eq(domains[i].name.as_str(), name) {
            return i;
        }
        i = i + 1;
    }
    0
}

/// Position of the first subnet with id `id`, else 0.
pub fn default_subnet_index(subnets: &[Subnet], id: &str) -> (r: usize)
    ensures
        (exists|i: int| 0 <= i < subnets@.len() && (#[trigger] subnets@[i]).id@ == id@) ==> (r
            < subnets@.len() && subnets@[r as int].id@ == id@ && forall|k: int|
            0 <= k < r ==> (#[trigger] subnets@[k]).id@ != id@),
        !(exists|i: int| 0 <= i < subnets@.len() && (#[trigger] subnets@[i]).id@ == id@) ==> r
            == 0,
{
    let n = subnets.len();
    let mut i: usize = 0;
    while i < n
        invariant
            n == subnets@.len(),
            i <= n,
            forall|k: int| 0 <= k < i ==> (#[trigger] subnets@[k]).id@ != id@,
        decreases n - i,
    {
        if str_eq(subnets[i].id.as_str(), id) {
            return i;
        }
        i = i + 1;
    }
    0
}

/// The OCPU menu entry selected first: the configured OCPUs (2 when unset)
/// minus one, at least 0 and at most 3.
pub fn default_ocpu_index(arm_ocpus: Option<u8>) -> (r: usize)
    ensures
        r as int == ({
            let o = match arm_ocpus {
                Some(v) => v as int,
                None => 2,
            };
            let d = if o >= 1 {
                o - 1
            } else {
                0
            };
            if d > 3 {
                3
            } else {
                d
            }
        }),
{
    let o = match arm_ocpus {
        Some(v) => v,
        None => 2,
    };
    let d = if o >= 1 {
        o - 1
    } else {
        0
    };
    let d = d as usize;
    if d > 3 {
        3
    } else {
        d
    }
}

/// The instance type of a type menu entry: the first is `amd`.
pub fn instance_type_for_index(index: usize) -> (r: &'static str)
    ensures
        index == 0 ==> r@ == "amd"@,
        index != 0 ==> r@ == "arm"@,
{
    if index == 0 {
        "amd"
    } else {
        "arm"
    }
}

/// The ARM size of an OCPU menu entry: `index + 1` OCPUs with 6 GB each.
pub fn arm_size_for_index(index: usize) -> (r: (u8, u8))
    requires
        index < 4,
    ensures
        r.0 == index + 1,
        r.1 == 6 * (index + 1),
{
    let ocpus = (index + 1) as u8;
    (ocpus, ocpus * 6)
}

/// The quick-configuration answers applied to an instance section: type,
/// name, ARM size (only for ARM) and public IPv4 choice.
pub fn apply_quick_config(
    config: &mut InstanceConfigFile,
    type_index: usize,
    display_name: String,
    ocpu_index: usize,
    assign_public_ip: bool,
)
    requires
        ocpu_index < 4,
    ensures
        final(config).instance.instance_type@ == (if type_index == 0 {
            "amd"@
        } else {
            "arm"@
        }),
        final(config).instance.display_name@ == display_name@,
        type_index == 0 ==> final(config).instance.arm_ocpus is None
            && final(config).instance.arm_memory_gb is None,
        type_index != 0 ==> final(config).instance.arm_ocpus == Some((ocpu_index + 1) as u8)
            && final(config).instance.arm_memory_gb == Some((6 * (ocpu_index + 1)) as u8),
        final(config).network.assign_public_ip == assign_public_ip,
        final(config).instance.boot_volume_size_gb == old(config).instance.boot_volume_size_gb,
        final(config).oracle == old(config).oracle,
        final(config).oci == old(config).oci,
        final(config).cloudflare == old(config).cloudflare,
        final(config).network.assign_ipv6 == old(config).network.assign_ipv6,
        final(config).network.private_ip == old(config).network.private_ip,
        final(config).network.ipv6_address == old(config).network.ipv6_address,
        final(config).network.hostname_label == old(config).network.hostname_label,
{
    config.instance.instance_type = String::from_str(instance_type_for_index(type_index));
    config.instance.display_name = display_name;
    if type_index == 0 {
        config.instance.arm_ocpus = None;
        config.instance.arm_memory_gb = None;
    } else {
        let (o, m) = arm_size_for_index(ocpu_index);
        config.instance.arm_ocpus = Some(o);
        config.instance.arm_memory_gb = Some(m);
    }
    config.network.assign_public_ip = assign_public_ip;
}

// ---------------------------------------------------------------------------
// Image selection
// ---------------------------------------------------------------------------

/// Images whose lower-cased name mentions `minimal`, `gpu`, `stig` or
/// `core` are not offered.
pub open spec fn image_excluded(lower_name: Seq<char>) -> bool {
    ||| contains_seq(lower_name, "minimal"@)
    ||| contains_seq(lower_name, "gpu"@)
    ||| contains_seq(lower_name, "stig"@)
    ||| contains_seq(lower_name, "core"@)
}

/// The display name of an image, empty when it has none.
pub open spec fn image_name(img: Image) -> Seq<char> {
    match img.display_name {
        Some(n) => n@,
        None => Seq::empty(),
    }
}

/// The major version an image is listed under, `None` when it is not
/// offered: for Windows the server year found in the name (2025, 2022,
/// 2019, 2016, in that order), otherwise the version up to its first `.`
/// (`Unknown` when the image has no version).
pub open spec fn image_major_version_spec(img: Image, api_name: Seq<char>) -> Option<Seq<char>> {
    let lower = lowercase(image_name(img));
    if image_excluded(lower) {
        None
    } else {
        let version = match img.operating_system_version {
            Some(v) => v@,
            None => "Unknown"@,
        };
        let first = split_once_spec(version, '.').0;
        Some(
            if api_name == "Windows"@ {
                if contains_seq(lower, "2025"@) {
                    "2025"@
                } else if contains_seq(lower, "2022"@) {
                    "2022"@
                } else if contains_seq(lower, "2019"@) {
                    "2019"@
                } else if contains_seq(lower, "2016"@) {
                    "2016"@
                } else {
                    first
                }
            } else {
                first
            },
        )
    }
}

/// Works out the major version an image is listed under.
pub fn image_major_version(img: &Image, api_name: &str) -> (r: Option<String>)
    ensures
        opt_view(r) == image_major_version_spec(*img, api_name@),
{
    let name = match &img.display_name {
        Some(n) => copy_string(n),
        None => String::new(),
    };
    let lower = to_lowercase(name.as_str());
    let l = lower.as_str();
    if str_contains(l, "minimal") || str_contains(l, "gpu") || str_contains(l, "stig")
        || str_contains(l, "core") {
        return None;
    }
    let version = match &img.operating_system_version {
        Some(v) => copy_string(v),
        None => String::from_str("Unknown"),
    };
    let vc = str_chars(version.as_str());
    let (first, _) = split_once_chars(vc.as_slice(), '.');
    let first = string_of(first.as_slice());
    if str_eq(api_name, "Windows") {
        if str_contains(l, "2025") {
            Some(String::from_str("2025"))
        } else if str_contains(l, "2022") {
            Some(String::from_str("2022"))
        } else if str_contains(l, "2019") {
            Some(String::from_str("2019"))
        } else if str_contains(l, "2016") {
            Some(String::from_str("2016"))
        } else {
            Some(first)
        }
    } else {
        Some(first)
    }
}

/// The major versions of a list of images, position by position.
pub fn image_major_versions(images: &[Image], api_name: &str) -> (r: Vec<Option<String>>)
    ensures
        r@.len() == images@.len(),
        forall|i: int|
            0 <= i < images@.len() ==> opt_view(#[trigger] r@[i]) == image_major_version_spec(
                images@[i],
                api_name@,
            ),
{
    let mut r: Vec<Option<String>> = Vec::new();
    let n = images.len();
    let mut i: usize = 0;
    while i < n
        invariant
            n == images@.len(),
            i <= n,
            r@.len() == i,
            forall|k: int|
                0 <= k < i ==> opt_view(#[trigger] r@[k]) == image_major_version_spec(
                    images@[k],
                    api_name@,
                ),
        decreases n - i,
    {
        r.push(image_major_version(&images[i], api_name));
        i = i + 1;
    }
    r
}

/// Strictly descending in lexicographic order (so without repeats).
pub open spec fn strictly_descending(s: Seq<String>) -> bool {
    forall|i: int, j: int|
        0 <= i < j < s.len() ==> seq_le((#[trigger] s[j])@, (#[trigger] s[i])@) && s[i]@ != s[j]@
}

/// `v` is one of the listed versions.
pub open spec fn has_version(s: Seq<String>, v: Seq<char>) -> bool {
    exists|i: int| 0 <= i < s.len() && (#[trigger] s[i])@ == v
}

/// `v` is the version of one of the images.
pub open spec fn version_present(majors: Seq<Option<String>>, v: Seq<char>) -> bool {
    exists|i: int| 0 <= i < majors.len() && opt_view(#[trigger] majors[i]) == Some(v)
}

/// The versions offered, newest first: each version that some image has,
/// once, in descending order.
pub fn versions_descending(majors: &[Option<String>]) -> (r: Vec<String>)
    ensures
        strictly_descending(r@),
        forall|v: Seq<char>| #[trigger] has_version(r@, v) <==> version_present(majors@, v),
{
    let mut out: Vec<String> = Vec::new();
    let n = majors.len();
    let mut i: usize = 0;
    while i < n
        invariant
            n == majors@.len(),
            i <= n,
            strictly_descending(out@),
            forall|v: Seq<char>|
                #[trigger] has_version(out@, v) <==> version_present(majors@.take(i as int), v),
        decreases n - i,
    {
        proof {
            assert forall|v: Seq<char>|
                version_present(majors@.take(i + 1), v) <==> (version_present(
                    majors@.take(i as int),
                    v,
                ) || opt_view(majors@[i as int]) == Some(v)) by {
                if version_present(majors@.take(i + 1), v) {
                    let k = choose|k: int|
                        0 <= k < i + 1 && opt_view(#[trigger] majors@.take(i + 1)[k]) == Some(v);
                    if k < i {
                        assert(majors@.take(i as int)[k] == majors@.take(i + 1)[k]);
                    }
                }
                if version_present(majors@.take(i as int), v) {
                    let k = choose|k: int|
                        0 <= k < i && opt_view(#[trigger] majors@.take(i as int)[k]) == Some(v);
                    assert(majors@.take(i + 1)[k] == majors@.take(i as int)[k]);
                }
                if opt_view(majors@[i as int]) == Some(v) {
                    assert(majors@.take(i + 1)[i as int] == majors@[i as int]);
                }
            }
        }
        match &majors[i] {
            None => {},
            Some(v) => {
                let vc = str_chars(v.as_str());
                let m = out.len();
                let mut j: usize = 0;
                while j < m
                    invariant
                        m == out@.len(),
                        j <= m,
                        vc@ == v@,
                        forall|k: int| 0 <= k < j ==> !seq_le((#[trigger] out@[k])@, v@),
                    ensures
                        j <= m,
                        forall|k: int| 0 <= k < j ==> !seq_le((#[trigger] out@[k])@, v@),
                        j < m ==> seq_le(out@[j as int]@, v@),
                    decreases m - j,
                {
                    let oc = str_chars(out[j].as_str());
                    if chars_le(oc.as_slice(), vc.as_slice()) {
                        break;
                    }
                    j = j + 1;
                }
                let found = if j < m {
                    let oc = str_chars(out[j].as_str());
                    crate::text::chars_eq(oc.as_slice(), vc.as_slice())
                } else {
                    false
                };
                if !found {
                    let ghost before = out@;
                    proof {
                        assert forall|k: int| j <= k < m implies seq_le(
                            (#[trigger] before[k])@,
                            v@,
                        ) && before[k]@ != v@ by {
                            if j < m {
                                assert(seq_le(before[j as int]@, v@));
                                assert(before[j as int]@ != v@);
                                if k > j {
                                    lemma_seq_le_trans(before[k]@, before[j as int]@, v@);
                                    if before[k]@ == v@ {
                                        lemma_seq_le_antisym(before[j as int]@, v@);
                                    }
                                }
                            }
                        }
                        assert forall|k: int| 0 <= k < j implies seq_le(v@, (#[trigger] before[k])@)
                            && before[k]@ != v@ by {
                            lemma_seq_le_total(before[k]@, v@);
                        }
                        assert(!has_version(before, v@));
                    }
                    out.insert(j, copy_string(v));
                    proof {
                        assert forall|a: int, b: int| 0 <= a < b < out@.len() implies seq_le(
                            (#[trigger] out@[b])@,
                            (#[trigger] out@[a])@,
                        ) && out@[a]@ != out@[b]@ by {
                            if b < j {
                                assert(out@[a] == before[a] && out@[b] == before[b]);
                            } else if b == j {
                                assert(out@[a] == before[a]);
                            } else if a < j {
                                assert(out@[a] == before[a] && out@[b] == before[b - 1]);
                                lemma_seq_le_trans(before[b - 1]@, v@, before[a]@);
                                if before[a]@ == before[b - 1]@ {
                                    lemma_seq_le_antisym(before[a]@, v@);
                                }
                            } else if a == j {
                                assert(out@[b] == before[b - 1]);
                            } else {
                                assert(out@[a] == before[a - 1] && out@[b] == before[b - 1]);
                            }
                        }
                        assert forall|w: Seq<char>| #[trigger] has_version(out@, w) <==> (
                        has_version(before, w) || w == v@) by {
                            if has_version(out@, w) {
                                let k = choose|k: int| 0 <= k < out@.len() && (#[trigger] out@[k])@ == w;
                                if k < j {
                                    assert(out@[k] == before[k]);
                                } else if k > j {
                                    assert(out@[k] == before[k - 1]);
                                }
                            }
                            if has_version(before, w) {
                                let k = choose|k: int| 0 <= k < before.len() && (#[trigger] before[k])@ == w;
                                if k < j {
                                    assert(out@[k] == before[k]);
                                } else {
                                    assert(out@[k + 1] == before[k]);
                                }
                            }
                            if w == v@ {
                                assert(out@[j as int]@ == v@);
                            }
                        }
                    }
                } else {
                    proof {
                        assert(out@[j as int]@ == v@);
                        assert(has_version(out@, v@));
                    }
                }
            },
        }
        i = i + 1;
    }
    proof {
        assert(majors@.take(n as int) =~= majors@);
    }
    out
}

/// Indices of the images listed under `version`, in order.
pub fn images_with_version(majors: &[Option<String>], version: &str) -> (r: Vec<usize>)
    ensures
        forall|k: int| 0 <= k < r@.len() ==> (#[trigger] r@[k]) < majors@.len() && opt_view(
            majors@[r@[k] as int],
        ) == Some(version@),
        forall|i: int|
            0 <= i < majors@.len() && opt_view(#[trigger] majors@[i]) == Some(version@) ==> r@.contains(
                i as usize,
            ),
        forall|a: int, b: int| 0 <= a < b < r@.len() ==> (#[trigger] r@[a]) < (#[trigger] r@[b]),
{
    let mut r: Vec<usize> = Vec::new();
    let n = majors.len();
    let mut i: usize = 0;
    while i < n
        invariant
            n == majors@.len(),
            i <= n,
            forall|k: int| 0 <= k < r@.len() ==> (#[trigger] r@[k]) < i && opt_view(
                majors@[r@[k] as int],
            ) == Some(version@),
            forall|t: int|
                0 <= t < i && opt_view(#[trigger] majors@[t]) == Some(version@) ==> r@.contains(
                    t as usize,
                ),
            forall|a: int, b: int| 0 <= a < b < r@.len() ==> (#[trigger] r@[a]) < (#[trigger] r@[b]),
        decreases n - i,
    {
        let matches = match &majors[i] {
            Some(v) => str_eq(v.as_str(), version),
            None => false,
        };
        if matches {
            let ghost before = r@;
            r.push(i);
            proof {
                assert forall|t: int|
                    0 <= t < i + 1 && opt_view(#[trigger] majors@[t]) == Some(version@) implies r@.contains(
                    t as usize,
                ) by {
                    if t < i {
                        let k = choose|k: int| 0 <= k < before.len() && before[k] == t as usize;
                        assert(r@[k] == before[k]);
                    } else {
                        assert(r@[before.len() as int] == i);
                    }
                }
            }
        } else {
            proof {
                assert forall|t: int|
                    0 <= t < i + 1 && opt_view(#[trigger] majors@[t]) == Some(version@) implies r@.contains(
                    t as usize,
                ) by {
                    if t == i {
                        assert(false);
                    }
                }
            }
        }
        i = i + 1;
    }
    r
}

/// Whether an image is built for ARM (its lower-cased name mentions
/// `aarch64` or `arm`); `None` when it has no name.
pub open spec fn image_is_arm_spec(img: Image) -> Option<bool> {
    match img.display_name {
        Some(n) => Some(contains_seq(lowercase(n@), "aarch64"@) || contains_seq(lowercase(n@), "arm"@)),
        None => None,
    }
}

/// Decides whether an image is built for ARM.
pub fn image_is_arm(img: &Image) -> (r: Option<bool>)
    ensures
        r == image_is_arm_spec(*img),
{
    match &img.display_name {
        Some(n) => {
            let l = to_lowercase(n.as_str());
            Some(str_contains(l.as_str(), "aarch64") || str_contains(l.as_str(), "arm"))
        },
        None => None,
    }
}

/// The latest image for an architecture among the given indices: the one
/// with the greatest display name; among equal names the last listed.
pub fn latest_image(images: &[Image], indices: &[usize], want_arm: bool) -> (r: Option<usize>)
    requires
        forall|k: int| 0 <= k < indices@.len() ==> (#[trigger] indices@[k]) < images@.len(),
    ensures
        match r {
            Some(i) => i < images@.len() && image_is_arm_spec(images@[i as int]) == Some(want_arm)
                && (forall|k: int|
                0 <= k < indices@.len() && image_is_arm_spec(images@[indices@[k] as int]) == Some(
                    want_arm,
                ) ==> seq_le(image_name(images@[#[trigger] indices@[k] as int]), image_name(images@[i as int])))
                && exists|p: int|
                0 <= p < indices@.len() && #[trigger] indices@[p] == i && forall|q: int|
                    p < q < indices@.len() && image_is_arm_spec(images@[indices@[q] as int]) == Some(
                        want_arm,
                    ) ==> image_name(images@[#[trigger] indices@[q] as int]) != image_name(
                        images@[i as int],
                    ),
            None => forall|k: int|
                0 <= k < indices@.len() ==> image_is_arm_spec(images@[#[trigger] indices@[k] as int])
                    != Some(want_arm),
        },
{
    let mut best: Option<usize> = None;
    let mut best_name: Vec<char> = Vec::new();
    let ghost mut best_pos: int = 0;
    let n = indices.len();
    let mut k: usize = 0;
    while k < n
        invariant
            n == indices@.len(),
            k <= n,
            forall|t: int| 0 <= t < indices@.len() ==> (#[trigger] indices@[t]) < images@.len(),
            match best {
                Some(i) => i < images@.len() && image_is_arm_spec(images@[i as int]) == Some(want_arm)
                    && best_name@ == image_name(images@[i as int]) && (forall|t: int|
                    0 <= t < k && image_is_arm_spec(images@[indices@[t] as int]) == Some(want_arm)
                        ==> seq_le(image_name(images@[#[trigger] indices@[t] as int]), best_name@))
                    && 0 <= best_pos < k && indices@[best_pos] == i && forall|q: int|
                    best_pos < q < k && image_is_arm_spec(images@[indices@[q] as int]) == Some(
                        want_arm,
                    ) ==> image_name(images@[#[trigger] indices@[q] as int]) != best_name@,
                None => forall|t: int|
                    0 <= t < k ==> image_is_arm_spec(images@[#[trigger] indices@[t] as int]) != Some(
                        want_arm,
                    ),
            },
        decreases n - k,
    {
        let idx = indices[k];
        let img = &images[idx];
        let arm = image_is_arm(img);
        if arm == Some(want_arm) {
            let name = match &img.display_name {
                Some(s) => str_chars(s.as_str()),
                None => Vec::new(),
            };
            let take = match best {
                None => true,
                Some(_) => chars_le(best_name.as_slice(), name.as_slice()),
            };
            if take {
                proof {
                    match best {
                        Some(i) => {
                            assert forall|t: int|
                                0 <= t < k + 1 && image_is_arm_spec(images@[indices@[t] as int])
                                    == Some(want_arm) implies seq_le(
                                image_name(images@[#[trigger] indices@[t] as int]),
                                name@,
                            ) by {
                                if t < k {
                                    lemma_seq_le_trans(
                                        image_name(images@[indices@[t] as int]),
                                        best_name@,
                                        name@,
                                    );
                                } else {
                                    lemma_seq_le_refl(name@);
                                }
                            }
                        },
                        None => {
                            lemma_seq_le_refl(name@);
                        },
                    }
                    assert(indices@[k as int] == idx);
                    best_pos = k as int;
                }
                best = Some(idx);
                best_name = name;
            } else {
                proof {
                    lemma_seq_le_total(best_name@, name@);
                    assert(indices@[k as int] == idx);
                    assert(name@ == image_name(images@[indices@[k as int] as int]));
                }
            }
        }
        k = k + 1;
    }
    best
}

// ---------------------------------------------------------------------------
// Summaries and menus
// ---------------------------------------------------------------------------

/// The summary printed when the wizard ends: type, name, ARM size (when
/// both parts are set), boot volume, address choices and the optional
/// addresses and host name.
pub open spec fn wizard_summary_spec(c: InstanceConfigFile) -> Seq<Seq<char>> {
    seq![
        "Instance Type: "@ + instance_type_label(c.instance.instance_type@),
        "Instance Name: "@ + c.instance.display_name@,
    ] + (match (c.instance.arm_ocpus, c.instance.arm_memory_gb) {
        (Some(o), Some(m)) => seq!["OCPU: "@ + decimal(o as nat) + ", Memory: "@ + decimal(m as nat) + " GB"@],
        _ => Seq::<Seq<char>>::empty(),
    }) + seq![
        "Boot Volume: "@ + signed_decimal(c.instance.boot_volume_size_gb as int) + " GB"@,
        "Public IPv4: "@ + yes_no(c.network.assign_public_ip),
        "IPv6: "@ + yes_no(c.network.assign_ipv6),
    ] + optional_line("Private IP: "@, c.network.private_ip) + optional_line(
        "IPv6 Address: "@,
        c.network.ipv6_address,
    ) + optional_line("Hostname: "@, c.network.hostname_label)
}

/// Lays out the wizard's closing summary.
pub fn wizard_summary(config: &InstanceConfigFile) -> (r: Vec<String>)
    ensures
        r@.len() == wizard_summary_spec(*config).len(),
        forall|i: int| 0 <= i < r@.len() ==> (#[trigger] r@[i])@ == wizard_summary_spec(*config)[i],
{
    let mut lines: Vec<String> = Vec::new();
    let label = if str_is_amd(config.instance.instance_type.as_str()) {
        "AMD Micro"
    } else {
        "ARM Flex"
    };
    lines.push(concat2("Instance Type: ", label));
    lines.push(concat2("Instance Name: ", config.instance.display_name.as_str()));
    match (config.instance.arm_ocpus, config.instance.arm_memory_gb) {
        (Some(o), Some(m)) => {
            let os = decimal_string(o as u64);
            let ms = decimal_string(m as u64);
            let a = concat3("OCPU: ", os.as_str(), ", Memory: ");
            lines.push(concat3(a.as_str(), ms.as_str(), " GB"));
        },
        _ => {},
    }
    let boot = signed_decimal_string(config.instance.boot_volume_size_gb);
    lines.push(concat3("Boot Volume: ", boot.as_str(), " GB"));
    let p = if config.network.assign_public_ip { "Yes" } else { "No" };
    lines.push(concat2("Public IPv4: ", p));
    let p6 = if config.network.assign_ipv6 { "Yes" } else { "No" };
    lines.push(concat2("IPv6: ", p6));
    let ghost before_opt = lines@;
    push_optional(&mut lines, "Private IP: ", &config.network.private_ip);
    let ghost after1 = lines@;
    push_optional(&mut lines, "IPv6 Address: ", &config.network.ipv6_address);
    let ghost after2 = lines@;
    push_optional(&mut lines, "Hostname: ", &config.network.hostname_label);
    proof {
        let spec = wizard_summary_spec(*config);
        assert(lines@.len() == spec.len());
        assert forall|i: int| 0 <= i < lines@.len() implies (#[trigger] lines@[i])@ == spec[i] by {
            if i < after2.len() {
                assert(lines@[i] == after2[i]);
                if i < after1.len() {
                    assert(after2[i] == after1[i]);
                    if i < before_opt.len() {
                        assert(after1[i] == before_opt[i]);
                    }
                }
            }
        }
    }
    lines
}

/// How a subnet is offered: its name (`Unnamed` without one) and its CIDR
/// (`N/A` without one) in parentheses.
pub open spec fn subnet_label_spec(s: Subnet) -> Seq<char> {
    (match s.display_name {
        Some(n) => n@,
        None => "Unnamed"@,
    }) + " ("@ + (match s.cidr_block {
        Some(c) => c@,
        None => "N/A"@,
    }) + ")"@
}

/// Formats a subnet menu entry.
pub fn subnet_label(s: &Subnet) -> (r: String)
    ensures
        r@ == subnet_label_spec(*s),
{
    let name: &str = match &s.display_name {
        Some(n) => n.as_str(),
        None => "Unnamed",
    };
    let cidr: &str = match &s.cidr_block {
        Some(c) => c.as_str(),
        None => "N/A",
    };
    let a = concat3(name, " (", cidr);
    concat2(a.as_str(), ")")
}

/// The version menu: the first three versions as `Version {v}`, then
/// `← Back`.
pub fn version_menu(versions: &[String]) -> (r: Vec<String>)
    ensures
        r@.len() == (if versions@.len() < 3 { versions@.len() } else { 3 }) + 1,
        forall|i: int|
            0 <= i < r@.len() - 1 ==> (#[trigger] r@[i])@ == "Version "@ + versions@[i]@,
        r@[r@.len() - 1]@ == "← Back"@,
{
    let shown: usize = if versions.len() < 3 { versions.len() } else { 3 };
    let mut r: Vec<String> = Vec::new();
    let mut i: usize = 0;
    while i < shown
        invariant
            shown <= versions@.len(),
            shown <= 3,
            i <= shown,
            r@.len() == i,
            forall|k: int| 0 <= k < i ==> (#[trigger] r@[k])@ == "Version "@ + versions@[k]@,
        decreases shown - i,
    {
        r.push(concat2("Version ", versions[i].as_str()));
        i = i + 1;
    }
    r.push(String::from_str("← Back"));
    r
}

} // verus!
