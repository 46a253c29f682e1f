//! Cloudflare API-token authentication and the DNS record logic: record
//! model, upsert planning, endpoint URLs and API error messages.

use vstd::prelude::*;
use crate::text::{
    concat2, concat3, copy_string, decimal, decimal_string, is_blank, is_blank_str, str_eq,
};

verus! {

/// Cloudflare authentication errors.
#[derive(Debug)]
pub enum AuthError {
    MissingValue(String),
}

impl AuthError {
    /// The message this error displays.
    pub fn message(&self) -> (r: String)
        ensures
            match self {
                AuthError::MissingValue(n) => r@ == "missing Cloudflare auth value: "@ + n@,
            },
    {
        match self {
            AuthError::MissingValue(n) => concat2("missing Cloudflare auth value: ", n.as_str()),
        }
    }
}

/// A required value is present when it is not blank; a blank value is
/// reported missing under `name`.
pub open spec fn require_value_ok(name: Seq<char>, value: Seq<char>, r: Result<String, AuthError>) -> bool {
    match r {
        Ok(v) => !is_blank(value) && v@ == value,
        Err(AuthError::MissingValue(n)) => is_blank(value) && n@ == name,
    }
}

/// Source of the API token and zone used for DNS operations.
pub trait ConfigurationProvider {
    /// Returns a Cloudflare API token.
    fn api_token(&self) -> Result<String, AuthError>;

    /// Returns the target zone name, such as `example.com`.
    fn zone_name(&self) -> Result<String, AuthError>;

    /// Required-field handling shared by implementors: a blank value is
    /// reported missing.
    fn require_value(name: &str, value: &str) -> (r: Result<String, AuthError>)
        where Self: Sized
        ensures
            require_value_ok(name@, value@, r),
    {
        if is_blank_str(value) {
            Err(AuthError::MissingValue(String::from_str(name)))
        } else {
            Ok(String::from_str(value))
        }
    }
}

/// A DNS record.
#[derive(Debug, Clone)]
pub struct DnsRecord {
    pub id: String,
    pub record_type: String,
    pub name: String,
    pub content: String,
    pub ttl: u32,
    pub proxied: Option<bool>,
}

/// A DNS zone.
#[derive(Debug, Clone)]
pub struct Zone {
    pub id: String,
    pub name: String,
}

/// A record to create or update.
#[derive(Debug, Clone)]
pub struct DnsRecordRequest {
    pub record_type: String,
    pub name: String,
    pub content: String,
    pub ttl: u32,
    pub proxied: Option<bool>,
}

/// The JSON body sent when creating or patching a record.
#[derive(Debug, Clone)]
pub struct DnsRecordBody {
    pub record_type: String,
    pub name: String,
    pub content: String,
    pub ttl: u32,
    pub proxied: Option<bool>,
}

/// Builds the body for a record with the given proxied flag.
pub fn record_body(record: &DnsRecordRequest, proxied: Option<bool>) -> (r: DnsRecordBody)
    ensures
        r.record_type@ == record.record_type@,
        r.name@ == record.name@,
        r.content@ == record.content@,
        r.ttl == record.ttl,
        r.proxied == proxied,
{
    DnsRecordBody {
        record_type: copy_string(&record.record_type),
        name: copy_string(&record.name),
        content: copy_string(&record.content),
        ttl: record.ttl,
        proxied,
    }
}

/// What an upsert does after listing the records of the same type and name.
#[derive(Debug, Clone)]
pub enum UpsertPlan {
    /// Patch the record with this id, sending this proxied flag.
    Update { record_id: String, proxied: Option<bool> },
    /// Create a new record.
    Create,
}

/// Plans an upsert: the first existing record is patched, keeping its
/// proxied flag unless the request sets one; without one a record is created.
pub fn plan_upsert(record: &DnsRecordRequest, existing: &[DnsRecord]) -> (r: UpsertPlan)
    ensures
        existing@.len() == 0 ==> r is Create,
        existing@.len() > 0 ==> (r matches UpsertPlan::Update { record_id, proxied }
            && record_id@ == existing@[0].id@ && proxied == (match record.proxied {
            Some(p) => Some(p),
            None => existing@[0].proxied,
        })),
{
    if existing.len() == 0 {
        UpsertPlan::Create
    } else {
        let current = &existing[0];
        let proxied = match record.proxied {
            Some(p) => Some(p),
            None => current.proxied,
        };
        UpsertPlan::Update { record_id: copy_string(&current.id), proxied }
    }
}

/// Base URL of the Cloudflare v4 API.
pub const API_BASE: &'static str = "https://api.cloudflare.com/client/v4";

/// URL of the DNS records of a zone.
pub fn zone_records_url(zone_id: &str) -> (r: String)
    ensures
        r@ == API_BASE@ + "/zones/"@ + zone_id@ + "/dns_records"@,
{
    let a = concat3(API_BASE, "/zones/", zone_id);
    concat2(a.as_str(), "/dns_records")
}

/// URL of one DNS record.
pub fn record_url(zone_id: &str, record_id: &str) -> (r: String)
    ensures
        r@ == API_BASE@ + "/zones/"@ + zone_id@ + "/dns_records"@ + "/"@ + record_id@,
{
    let a = zone_records_url(zone_id);
    concat3(a.as_str(), "/", record_id)
}

/// An error or message entry of an API response.
#[derive(Debug, Clone)]
pub struct CloudflareMessage {
    pub code: u32,
    pub message: String,
}

/// One entry as it appears in an error message: `{message} ({code})`.
pub open spec fn message_entry(m: CloudflareMessage) -> Seq<char> {
    m.message@ + " ("@ + decimal(m.code as nat) + ")"@
}

/// The entries joined with `"; "`.
pub open spec fn join_entries(ms: Seq<CloudflareMessage>) -> Seq<char>
    decreases ms.len(),
{
    if ms.len() == 0 {
        Seq::empty()
    } else if ms.len() == 1 {
        message_entry(ms[0])
    } else {
        join_entries(ms.drop_last()) + "; "@ + message_entry(ms.last())
    }
}

/// The error message for a failed response with the given status text.
pub open spec fn cloudflare_error_spec(status: Seq<char>, errors: Seq<CloudflareMessage>) -> Seq<char> {
    if errors.len() == 0 {
        "Cloudflare API error "@ + status
    } else {
        "Cloudflare API error "@ + status + ": "@ + join_entries(errors)
    }
}

/// Formats the error message of a failed API response.
pub fn format_cloudflare_error(status: &str, errors: &[CloudflareMessage]) -> (r: String)
    ensures
        r@ == cloudflare_error_spec(status@, errors@),
{
    if errors.len() == 0 {
        return concat2("Cloudflare API error ", status);
    }
    let mut details = String::new();
    let n = errors.len();
    let mut i: usize = 0;
    while i < n
        invariant
            n == errors@.len(),
            n > 0,
            i <= n,
            details@ == join_entries(errors@.take(i as int)),
        decreases n - i,
    {
        let code = decimal_string(errors[i].code as u64);
        let entry = concat3(errors[i].message.as_str(), " (", code.as_str());
        let entry = concat2(entry.as_str(), ")");
        proof {
            assert(errors@.take(i + 1).drop_last() =~= errors@.take(i as int));
            assert(errors@.take(i + 1).last() == errors@[i as int]);
        }
        if i == 0 {
            details = entry;
            proof {
                assert(details@ == message_entry(errors@[0]));
                assert(errors@.take(1).len() == 1);
                assert(errors@.take(1)[0] == errors@[0]);
            }
        } else {
            details.append("; ");
            details.append(entry.as_str());
        }
        i = i + 1;
    }
    proof {
        assert(errors@.take(n as int) =~= errors@);
    }
    let a = concat3("Cloudflare API error ", status, ": ");
    concat2(a.as_str(), details.as_str())
}

/// Checks a response: it is accepted when the status is 200 and the body
/// says `success`; otherwise the error message is returned.
pub fn check_response(
    status_code: u16,
    status_text: &str,
    success: bool,
    errors: &[CloudflareMessage],
) -> (r: Result<(), String>)
    ensures
        status_code == 200 && success ==> r is Ok,
        !(status_code == 200 && success) ==> (r matches Err(m) && m@ == cloudflare_error_spec(
            status_text@,
            errors@,
        )),
{
    if status_code != 200 || !success {
        Err(format_cloudflare_error(status_text, errors))
    } else {
        Ok(())
    }
}

/// Copies a record.
pub fn copy_record(r: &DnsRecord) -> (c: DnsRecord)
    ensures
        c.id@ == r.id@,
        c.record_type@ == r.record_type@,
        c.name@ == r.name@,
        c.content@ == r.content@,
        c.ttl == r.ttl,
        c.proxied == r.proxied,
{
    DnsRecord {
        id: copy_string(&r.id),
        record_type: copy_string(&r.record_type),
        name: copy_string(&r.name),
        content: copy_string(&r.content),
        ttl: r.ttl,
        proxied: r.proxied,
    }
}

/// Two records with the same fields.
pub open spec fn same_record(a: DnsRecord, b: DnsRecord) -> bool {
    &&& a.id@ == b.id@
    &&& a.record_type@ == b.record_type@
    &&& a.name@ == b.name@
    &&& a.content@ == b.content@
    &&& a.ttl == b.ttl
    &&& a.proxied == b.proxied
}

/// An `A` record whose content is `ip`.
pub open spec fn points_to(r: DnsRecord, ip: Seq<char>) -> bool {
    r.record_type@ == "A"@ && r.content@ == ip
}

/// The `A` records that point to `ip`, in their listed order (the records
/// to rewrite after a public IP change).
pub fn a_records_pointing_to(records: &[DnsRecord], ip: &str) -> (r: Vec<DnsRecord>)
    ensures
        r@.len() == records@.filter(|x: DnsRecord| points_to(x, ip@)).len(),
        forall|i: int|
            0 <= i < r@.len() ==> same_record(
                #[trigger] r@[i],
                records@.filter(|x: DnsRecord| points_to(x, ip@))[i],
            ),
{
    let ghost pred = |x: DnsRecord| points_to(x, ip@);
    let mut out: Vec<DnsRecord> = Vec::new();
    let n = records.len();
    let mut i: usize = 0;
    while i < n
        invariant
            n == records@.len(),
            i <= n,
            pred == (|x: DnsRecord| points_to(x, ip@)),
            out@.len() == records@.take(i as int).filter(pred).len(),
            forall|k: int|
                0 <= k < out@.len() ==> same_record(
                    #[trigger] out@[k],
                    records@.take(i as int).filter(pred)[k],
                ),
        decreases n - i,
    {
        proof {
            reveal_with_fuel(Seq::<_>::filter, 1);
            assert(records@.take(i + 1).drop_last() =~= records@.take(i as int));
        }
        let rec = &records[i];
        if str_eq(rec.record_type.as_str(), "A") && str_eq(rec.content.as_str(), ip) {
            out.push(copy_record(rec));
        }
        i = i + 1;
    }
    proof {
        assert(records@.take(n as int) =~= records@);
    }
    out
}

/// The request that moves a record to `new_ip`, keeping its type, name,
/// TTL and proxied flag.
pub fn repoint_request(record: &DnsRecord, new_ip: &str) -> (r: DnsRecordRequest)
    ensures
        r.record_type@ == record.record_type@,
        r.name@ == record.name@,
        r.content@ == new_ip@,
        r.ttl == record.ttl,
        r.proxied == record.proxied,
{
    DnsRecordRequest {
        record_type: copy_string(&record.record_type),
        name: copy_string(&record.name),
        content: String::from_str(new_ip),
        ttl: record.ttl,
        proxied: record.proxied,
    }
}

/// URL of the zone list, queried with `name={zone_name}` to resolve a
/// zone's id.
pub fn zones_url() -> (r: String)
    ensures
        r@ == API_BASE@ + "/zones"@,
{
    concat2(API_BASE, "/zones")
}

/// The message when the zone lookup finds nothing.
pub open spec fn zone_not_found_message(zone_name: Seq<char>) -> Seq<char> {
    "Cloudflare zone not found: "@ + zone_name
}

/// Resolves a zone id from the reply to the zone lookup by name: the id of
/// the first zone listed, or an error naming the zone when none is.
pub fn resolve_zone_id(zones: &[Zone], zone_name: &str) -> (r: Result<String, String>)
    ensures
        zones@.len() > 0 ==> (r matches Ok(id) && id@ == zones@[0].id@),
        zones@.len() == 0 ==> (r matches Err(m) && m@ == zone_not_found_message(zone_name@)),
{
    if zones.len() > 0 {
        Ok(copy_string(&zones[0].id))
    } else {
        Err(concat2("Cloudflare zone not found: ", zone_name))
    }
}

} // verus!
