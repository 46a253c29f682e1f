use cloud_manage::cloudflare::{
    a_records_pointing_to, check_response, format_cloudflare_error, plan_upsert, record_body,
    record_url, repoint_request, resolve_zone_id, zone_records_url, zones_url, AuthError,
    CloudflareMessage, ConfigurationProvider, DnsRecord, DnsRecordRequest, UpsertPlan, Zone,
};
use cloud_manage::config::CloudflareConfig;
use cloud_manage::dns::{optional_input_with_default, record_row, record_table, ttl_from_answer};

fn record(id: &str, kind: &str, name: &str, content: &str, proxied: Option<bool>) -> DnsRecord {
    DnsRecord {
        id: id.to_string(),
        record_type: kind.to_string(),
        name: name.to_string(),
        content: content.to_string(),
        ttl: 1,
        proxied,
    }
}

fn request(proxied: Option<bool>) -> DnsRecordRequest {
    DnsRecordRequest {
        record_type: "A".to_string(),
        name: "app.example.com".to_string(),
        content: "203.0.113.10".to_string(),
        ttl: 300,
        proxied,
    }
}

#[test]
fn upsert_creates_when_nothing_matches() {
    assert!(matches!(plan_upsert(&request(None), &[]), UpsertPlan::Create));
}

#[test]
fn upsert_patches_first_match_keeping_proxied() {
    let existing = vec![
        record("r1", "A", "app.example.com", "1.1.1.1", Some(true)),
        record("r2", "A", "app.example.com", "2.2.2.2", Some(false)),
    ];
    match plan_upsert(&request(None), &existing) {
        UpsertPlan::Update { record_id, proxied } => {
            assert_eq!(record_id, "r1");
            assert_eq!(proxied, Some(true));
        }
        UpsertPlan::Create => panic!("expected an update"),
    }
    match plan_upsert(&request(Some(false)), &existing) {
        UpsertPlan::Update { record_id, proxied } => {
            assert_eq!(record_id, "r1");
            assert_eq!(proxied, Some(false));
        }
        UpsertPlan::Create => panic!("expected an update"),
    }
}

#[test]
fn record_body_carries_request() {
    let b = record_body(&request(None), Some(true));
    assert_eq!(b.record_type, "A");
    assert_eq!(b.name, "app.example.com");
    assert_eq!(b.content, "203.0.113.10");
    assert_eq!(b.ttl, 300);
    assert_eq!(b.proxied, Some(true));
}

#[test]
fn urls() {
    assert_eq!(zones_url(), "https://api.cloudflare.com/client/v4/zones");
    assert_eq!(
        zone_records_url("z1"),
        "https://api.cloudflare.com/client/v4/zones/z1/dns_records"
    );
    assert_eq!(
        record_url("z1", "r9"),
        "https://api.cloudflare.com/client/v4/zones/z1/dns_records/r9"
    );
}

#[test]
fn zone_resolution() {
    let zones = vec![
        Zone { id: "zid".to_string(), name: "example.com".to_string() },
        Zone { id: "other".to_string(), name: "example.com".to_string() },
    ];
    assert_eq!(resolve_zone_id(&zones, "example.com"), Ok("zid".to_string()));
    assert_eq!(
        resolve_zone_id(&[], "example.com"),
        Err("Cloudflare zone not found: example.com".to_string())
    );
}

#[test]
fn cloudflare_errors() {
    assert_eq!(format_cloudflare_error("403 Forbidden", &[]), "Cloudflare API error 403 Forbidden");
    let errs = vec![
        CloudflareMessage { code: 9109, message: "Invalid access token".to_string() },
        CloudflareMessage { code: 10000, message: "Authentication error".to_string() },
    ];
    assert_eq!(
        format_cloudflare_error("403 Forbidden", &errs),
        "Cloudflare API error 403 Forbidden: Invalid access token (9109); Authentication error (10000)"
    );
    assert_eq!(check_response(200, "200 OK", true, &[]), Ok(()));
    assert_eq!(
        check_response(200, "200 OK", false, &errs[..1]),
        Err("Cloudflare API error 200 OK: Invalid access token (9109)".to_string())
    );
    assert_eq!(
        check_response(404, "404 Not Found", true, &[]),
        Err("Cloudflare API error 404 Not Found".to_string())
    );
}

#[test]
fn a_records_for_old_ip_are_repointed() {
    let records = vec![
        record("r1", "A", "a.example.com", "1.2.3.4", Some(true)),
        record("r2", "AAAA", "a.example.com", "1.2.3.4", None),
        record("r3", "A", "b.example.com", "9.9.9.9", None),
        record("r4", "A", "c.example.com", "1.2.3.4", None),
    ];
    let hits = a_records_pointing_to(&records, "1.2.3.4");
    let ids: Vec<&str> = hits.iter().map(|r| r.id.as_str()).collect();
    assert_eq!(ids, vec!["r1", "r4"]);
    let req = repoint_request(&hits[0], "5.6.7.8");
    assert_eq!(req.record_type, "A");
    assert_eq!(req.name, "a.example.com");
    assert_eq!(req.content, "5.6.7.8");
    assert_eq!(req.ttl, 1);
    assert_eq!(req.proxied, Some(true));
}

#[test]
fn config_provider_requires_values() {
    let mut c = CloudflareConfig {
        api_token: "tok".to_string(),
        zone_name: "  ".to_string(),
        record_name: None,
    };
    assert_eq!(c.api_token().unwrap(), "tok");
    match c.zone_name() {
        Err(AuthError::MissingValue(n)) => assert_eq!(n, "zone_name"),
        Ok(_) => panic!("blank zone accepted"),
    }
    c.zone_name = "example.com".to_string();
    assert_eq!(c.zone_name().unwrap(), "example.com");
    let e = AuthError::MissingValue("api_token".to_string());
    assert_eq!(e.message(), "missing Cloudflare auth value: api_token");
}

#[test]
fn optional_answers() {
    assert_eq!(optional_input_with_default("".to_string()), None);
    assert_eq!(optional_input_with_default("  \t".to_string()), None);
    assert_eq!(optional_input_with_default(" A ".to_string()), Some(" A ".to_string()));
}

#[test]
fn ttl_answers() {
    assert_eq!(ttl_from_answer("1"), 1);
    assert_eq!(ttl_from_answer(" 300 "), 300);
    assert_eq!(ttl_from_answer("+60"), 60);
    assert_eq!(ttl_from_answer("auto"), 1);
    assert_eq!(ttl_from_answer("-5"), 1);
    assert_eq!(ttl_from_answer("4294967296"), 1);
    assert_eq!(ttl_from_answer("4294967295"), 4294967295);
}

#[test]
fn record_table_layout() {
    assert_eq!(record_table(&[]), vec!["No DNS records found.".to_string()]);
    let r = DnsRecord {
        id: "abc".to_string(),
        record_type: "A".to_string(),
        name: "app.example.com".to_string(),
        content: "203.0.113.10".to_string(),
        ttl: 300,
        proxied: Some(false),
    };
    let expected_row = format!(
        "{:<34} {:<6} {:<36} {:<8} {:<7} {}",
        "abc", "A", "app.example.com", 300, "false", "203.0.113.10"
    );
    assert_eq!(record_row(&r), expected_row);
    let table = record_table(&[r.clone(), record("x", "CNAME", "w", "app", None)]);
    assert_eq!(table.len(), 3);
    assert_eq!(
        table[0],
        format!("{:<34} {:<6} {:<36} {:<8} {:<7} {}", "ID", "TYPE", "NAME", "TTL", "PROXY", "CONTENT")
    );
    assert_eq!(table[1], expected_row);
    assert_eq!(
        table[2],
        format!("{:<34} {:<6} {:<36} {:<8} {:<7} {}", "x", "CNAME", "w", 1, "-", "app")
    );
}
