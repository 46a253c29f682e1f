use base64::Engine;
use cloud_manage::cloudflare::DnsRecord;
use cloud_manage::config::{config_summary, max_attempts_label, InstanceConfigFile};
use cloud_manage::oci_compute::{api_error_message, parse_method, ComputeClient, HttpMethod};
use cloud_manage::oci_models::LifecycleState;
use cloud_manage::oci_signer::RequestSigner;
use cloud_manage::operations::{
    format_target_option, max_attempts_from_answer, record_refreshed_ip, sort_targets, target_name,
    SnipeState, SnipeStep,
};
use cloud_manage::oracle::{PublicIpRefreshResult, PublicIpv4Target};
use cloud_manage::utils::{collapse_whitespace, humanize_oci_error, is_retryable_oci_error};
use cloud_manage::web::{
    authorize, constant_time_eq, default_ttl, redacted_config, refresh_response, validate_upsert,
    wants_dns_update, DnsRecordView, InstanceTargetView, RefreshIpBody, UpsertDnsBody,
};

// Throwaway 512-bit RSA key made for these tests only (small, so signing is fast),
// kept as DER bytes and armoured at run time.
const PKCS1_DER: [u8; 319] = [
    0x30, 0x82, 0x01, 0x3b, 0x02, 0x01, 0x00, 0x02, 0x41, 0x00, 0xc6, 0x2f, 0x1b, 0x76, 0x47, 0x25,
    0x9b, 0xb7, 0x33, 0x0d, 0xce, 0x77, 0x4f, 0x07, 0x6e, 0xe8, 0x12, 0xeb, 0xf4, 0xe1, 0x04, 0x0d,
    0x5e, 0xef, 0x0b, 0x5e, 0x18, 0x61, 0xce, 0x56, 0xce, 0x2c, 0x57, 0x92, 0x57, 0x36, 0x2e, 0xb3,
    0x6b, 0x05, 0x45, 0xfe, 0x43, 0x1e, 0x7a, 0xb1, 0x1a, 0x71, 0xfb, 0x4b, 0xe1, 0x03, 0x53, 0x08,
    0x9b, 0xf9, 0xe6, 0x18, 0x7f, 0x89, 0x64, 0x14, 0xfd, 0x61, 0x02, 0x03, 0x01, 0x00, 0x01, 0x02,
    0x40, 0x26, 0x7b, 0xc3, 0x43, 0x66, 0x71, 0x61, 0x19, 0x63, 0xea, 0x8c, 0x6b, 0x12, 0x87, 0x88,
    0xfb, 0xbb, 0xa0, 0xe1, 0xfe, 0x47, 0xc1, 0x28, 0xec, 0x16, 0x33, 0x01, 0x5d, 0x0c, 0xaa, 0x42,
    0x82, 0x75, 0xe5, 0xd3, 0x20, 0x45, 0x56, 0xc7, 0xe2, 0x6c, 0xaf, 0x2e, 0xa1, 0xa6, 0x49, 0x2b,
    0x64, 0xbd, 0x77, 0x02, 0x82, 0xf1, 0xed, 0x8b, 0x4d, 0x41, 0x3b, 0xbf, 0x89, 0x78, 0x98, 0xf0,
    0x01, 0x02, 0x21, 0x00, 0xf7, 0xe1, 0x2a, 0x48, 0xdc, 0xd6, 0x2a, 0x1d, 0xd5, 0x60, 0x5a, 0x2e,
    0x2e, 0x98, 0x54, 0x7e, 0xcd, 0xdd, 0xab, 0x4b, 0xe9, 0xd8, 0x08, 0x4d, 0x62, 0xbf, 0xf9, 0x80,
    0xca, 0xae, 0xd7, 0x41, 0x02, 0x21, 0x00, 0xcc, 0xad, 0x2b, 0xff, 0xf0, 0x28, 0x8b, 0x59, 0xb0,
    0x64, 0xb6, 0x82, 0xaf, 0x6a, 0x21, 0x47, 0x9b, 0xc0, 0xd9, 0x1a, 0x17, 0xb5, 0x7b, 0x09, 0x13,
    0xd7, 0x52, 0x3a, 0xce, 0x89, 0xbe, 0x21, 0x02, 0x21, 0x00, 0xb6, 0x1c, 0x02, 0x88, 0xcd, 0x55,
    0xba, 0x53, 0x78, 0xb3, 0xf5, 0x0d, 0x00, 0xc6, 0x81, 0x2d, 0x37, 0xe9, 0xa7, 0x33, 0x7a, 0x75,
    0x70, 0x84, 0x0a, 0x0c, 0xa8, 0x2d, 0x6a, 0xba, 0xd1, 0x01, 0x02, 0x21, 0x00, 0xac, 0xbb, 0xd5,
    0x2f, 0x59, 0x72, 0x0e, 0x30, 0xb2, 0x32, 0x3c, 0xe9, 0x4b, 0xbb, 0x28, 0xbc, 0xf3, 0x50, 0xac,
    0xa8, 0x5d, 0xab, 0xf6, 0x5a, 0xf1, 0xd8, 0xbd, 0x78, 0x0d, 0xc8, 0xa7, 0xa1, 0x02, 0x20, 0x2d,
    0x80, 0x97, 0xd0, 0x22, 0xb5, 0xd9, 0xc7, 0xd1, 0x0c, 0x81, 0xbd, 0xf5, 0x6c, 0xd7, 0x4b, 0x1c,
    0x1a, 0xe5, 0x37, 0xab, 0x3a, 0x4d, 0x81, 0x33, 0x4a, 0x3f, 0xd6, 0x31, 0xfa, 0xb9, 0x92,
];

/// Armours DER bytes as PEM text with the given label, 64 columns a line.
fn pem_text(label: &str, der: &[u8]) -> String {
    let body = base64::engine::general_purpose::STANDARD.encode(der);
    let mut text = format!("-----BEGIN {}-----\n", label);
    for line in body.as_bytes().chunks(64) {
        text.push_str(std::str::from_utf8(line).unwrap());
        text.push('\n');
    }
    text.push_str(&format!("-----END {}-----\n", label));
    text
}

fn client() -> ComputeClient {
    let signer = RequestSigner::from_parts("t/u/f".to_string(), &pem_text("RSA PRIVATE KEY", &PKCS1_DER)).unwrap();
    ComputeClient::from_parts(signer, "us-ashburn-1".to_string())
}

const GET_AUTH_PREFIX: &str =
    "Signature version=\"1\",headers=\"(request-target) host date\",keyId=\"t/u/f\",algorithm=\"rsa-sha256\",signature=\"";

#[test]
fn compute_endpoints() {
    let c = client();
    assert_eq!(c.endpoint(), "https://iaas.us-ashburn-1.oraclecloud.com");
    assert_eq!(c.host(), "iaas.us-ashburn-1.oraclecloud.com");
    let r = c.get_instance_request("ocid1.instance.oc1..i").unwrap();
    assert_eq!(r.method, HttpMethod::Get);
    assert_eq!(r.url, "https://iaas.us-ashburn-1.oraclecloud.com/20160918/instances/ocid1.instance.oc1..i");
    assert!(r.authorization.starts_with(GET_AUTH_PREFIX));
    assert!(r.body.is_none());
    assert!(r.content_type.is_none());
    assert_eq!(r.headers.len(), 1);
    assert_eq!(r.headers[0].0, "date");
    assert!(r.headers[0].1.ends_with(" GMT"));
    assert_eq!(r.headers[0].1.len(), 29);
}

#[test]
fn compute_query_strings_are_encoded() {
    let c = client();
    let r = c.list_instances_request("ocid1.compartment.oc1..a:b").unwrap();
    assert_eq!(
        r.url,
        "https://iaas.us-ashburn-1.oraclecloud.com/20160918/instances?compartmentId=ocid1.compartment.oc1..a%3Ab"
    );
}

#[test]
fn compute_image_queries() {
    let c = client();
    let r = c
        .list_images_filtered_request("comp", Some("Oracle Linux"), Some("9"))
        .unwrap();
    assert_eq!(
        r.url,
        "https://iaas.us-ashburn-1.oraclecloud.com/20160918/images?compartmentId=comp&operatingSystem=Oracle%20Linux&operatingSystemVersion=9"
    );
    let r = c.list_images_request("comp").unwrap();
    assert_eq!(r.url, "https://iaas.us-ashburn-1.oraclecloud.com/20160918/images?compartmentId=comp");
    let r = c.list_vnic_attachments_request("c 1", "i/2").unwrap();
    assert_eq!(
        r.url,
        "https://iaas.us-ashburn-1.oraclecloud.com/20160918/vnicAttachments?compartmentId=c%201&instanceId=i%2F2"
    );
}

#[test]
fn compute_network_queries() {
    let c = client();
    let r = c.list_private_ips_request("v+1").unwrap();
    assert_eq!(r.url, "https://iaas.us-ashburn-1.oraclecloud.com/20160918/privateIps?vnicId=v%2B1");
    let r = c.list_shapes_request("comp").unwrap();
    assert_eq!(r.url, "https://iaas.us-ashburn-1.oraclecloud.com/20160918/shapes?compartmentId=comp");
    let r = c.delete_public_ip_request("pub").unwrap();
    assert_eq!(r.method, HttpMethod::Delete);
    assert_eq!(r.url, "https://iaas.us-ashburn-1.oraclecloud.com/20160918/publicIps/pub");
}

#[test]
fn compute_bodies_are_signed_as_json() {
    let c = client();
    let r = c.create_public_ip_request(b"{}".to_vec()).unwrap();
    assert_eq!(r.method, HttpMethod::Post);
    assert_eq!(r.url, "https://iaas.us-ashburn-1.oraclecloud.com/20160918/publicIps");
    assert_eq!(r.body, Some(b"{}".to_vec()));
    assert_eq!(r.content_type, Some("application/json".to_string()));
    assert_eq!(r.headers.len(), 3);
    assert_eq!(r.headers[0].0, "date");
    assert_eq!(r.headers[1], ("content-length".to_string(), "2".to_string()));
    assert_eq!(
        r.headers[2],
        ("x-content-sha256".to_string(), "RBNvo1WzZ4oRRq0W9+hknpT7T8If536DEMBg9hyq/4o=".to_string())
    );
    assert!(r.authorization.starts_with(
        "Signature version=\"1\",headers=\"(request-target) host date content-length content-type x-content-sha256\",keyId=\"t/u/f\""
    ));
}

#[test]
fn methods_and_api_errors() {
    assert_eq!(parse_method("PUT"), Ok(HttpMethod::Put));
    assert_eq!(parse_method("PATCH"), Err("Unsupported HTTP method: PATCH".to_string()));
    assert_eq!(api_error_message("404 Not Found", "{}"), "API error 404 Not Found: {}");
}

#[test]
fn retryable_errors() {
    assert!(is_retryable_oci_error("API error 429 Too Many Requests: {}"));
    assert!(is_retryable_oci_error("API error 500 Internal Server Error: out of host capacity"));
    assert!(is_retryable_oci_error("API error 503 Service Unavailable"));
    assert!(!is_retryable_oci_error("API error 400 Bad Request: {\"code\":\"LimitExceeded\"}"));
    assert!(!is_retryable_oci_error("API error 401 Unauthorized: connection"));
    assert!(is_retryable_oci_error("error sending request: Connection reset by peer"));
    assert!(is_retryable_oci_error("operation timed out"));
    assert!(!is_retryable_oci_error("invalid compartment"));
}

#[test]
fn humanized_errors() {
    assert_eq!(
        humanize_oci_error("API error 500: {\"code\": \"InternalError\", \"message\": \"Out of host capacity.\"}"),
        "Out of host capacity. (InternalError)"
    );
    assert_eq!(
        humanize_oci_error("API error 400: {\"code\": \"LimitExceeded\"}"),
        "LimitExceeded"
    );
    assert_eq!(humanize_oci_error("  too   many\n spaces "), "too many spaces");
    assert_eq!(humanize_oci_error("broken { json"), "broken { json");
    assert_eq!(collapse_whitespace(" a \t b "), "a b");
}

fn target(name: Option<&str>, id: &str, state: LifecycleState) -> PublicIpv4Target {
    PublicIpv4Target {
        instance_id: id.to_string(),
        display_name: name.map(|s| s.to_string()),
        lifecycle_state: state,
        private_ip_id: "p".to_string(),
        public_ip_id: None,
        public_ip: None,
        public_ip_error: None,
        vnic_display_name: None,
        compartment_id: "c".to_string(),
    }
}

#[test]
fn target_order_and_labels() {
    let ts = vec![
        target(Some("b"), "2", LifecycleState::Stopped),
        target(Some("z"), "3", LifecycleState::Running),
        target(Some("a"), "9", LifecycleState::Running),
        target(Some("a"), "1", LifecycleState::Running),
        target(None, "5", LifecycleState::Provisioning),
    ];
    let sorted = sort_targets(ts);
    let ids: Vec<&str> = sorted.iter().map(|t| t.instance_id.as_str()).collect();
    assert_eq!(ids, vec!["1", "9", "3", "5", "2"]);
    assert_eq!(target_name(&sorted[3]), "(unnamed)");
    let mut t = target(Some("web"), "1", LifecycleState::Running);
    assert_eq!(format_target_option(&t), format!("{:<12} {:<28} {}", "Running", "web", "none"));
    t.public_ip_error = Some("x".to_string());
    assert_eq!(format_target_option(&t), format!("{:<12} {:<28} {}", "Running", "web", "unavailable"));
    record_refreshed_ip(&mut t, "9.9.9.9");
    assert_eq!(t.public_ip, Some("9.9.9.9".to_string()));
    assert_eq!(t.public_ip_error, None);
    assert_eq!(format_target_option(&t), format!("{:<12} {:<28} {}", "Running", "web", "9.9.9.9"));
}

#[test]
fn snipe_cap_and_failures() {
    let mut s = SnipeState::new(2, false);
    assert!(matches!(s.next_step(), SnipeStep::Launch { attempt: 1 }));
    assert!(matches!(s.next_step(), SnipeStep::Launch { attempt: 2 }));
    match s.next_step() {
        SnipeStep::Stop { reason } => assert_eq!(reason, "reached max attempts (2)"),
        _ => panic!("expected stop"),
    }
    let mut unlimited = SnipeState::new(0, false);
    for _ in 0..5 {
        assert!(matches!(unlimited.next_step(), SnipeStep::Launch { .. }));
    }
    let f = s.on_failure("API error 400 Bad Request: {\"code\": \"LimitExceeded\", \"message\": \"Limit reached\"}");
    assert!(!f.retryable);
    assert_eq!(f.message, "Limit reached (LimitExceeded)");
    assert_eq!(
        f.stop_reason,
        Some("aborted on non-retryable error: Limit reached (LimitExceeded)".to_string())
    );
    let bypass = SnipeState::new(0, true);
    let g = bypass.on_failure("API error 400 Bad Request: nope");
    assert!(g.retryable);
    assert_eq!(g.stop_reason, None);
    let h = s.on_failure("API error 500 Internal Server Error: Out of host capacity.");
    assert!(h.retryable);
    assert_eq!(max_attempts_from_answer("10", 3), 10);
    assert_eq!(max_attempts_from_answer(" 0 ", 3), 0);
    assert_eq!(max_attempts_from_answer("lots", 3), 3);
    assert_eq!(max_attempts_from_answer(&3u32.to_string(), 3), 3);
}

#[test]
fn web_authorization() {
    assert!(authorize(None, None, None));
    assert!(authorize(Some("tok"), Some("Bearer tok"), None));
    assert!(!authorize(Some("tok"), Some("Bearer nope"), Some("tok")));
    assert!(authorize(Some("tok"), Some("Basic abc"), Some("tok")));
    assert!(authorize(Some("tok"), None, Some("tok")));
    assert!(!authorize(Some("tok"), None, None));
    assert!(!authorize(Some("tok"), Some("bearer tok"), None));
    assert!(constant_time_eq(b"abc", b"abc"));
    assert!(!constant_time_eq(b"abc", b"abd"));
    assert!(!constant_time_eq(b"abc", b"ab"));
}

#[test]
fn web_bodies_and_views() {
    assert_eq!(default_ttl(), 1);
    assert!(!wants_dns_update(None));
    assert!(wants_dns_update(Some(RefreshIpBody { update_dns: true })));
    let body = UpsertDnsBody {
        record_type: "A".to_string(),
        name: " ".to_string(),
        content: "1.2.3.4".to_string(),
        ttl: 1,
        proxied: None,
    };
    assert_eq!(validate_upsert(body.clone()).err(), Some("name and content are required".to_string()));
    let mut ok = body;
    ok.name = "app.example.com".to_string();
    let req = validate_upsert(ok).unwrap();
    assert_eq!(req.name, "app.example.com");
    assert_eq!(req.content, "1.2.3.4");

    let rec = DnsRecord {
        id: "r".to_string(),
        record_type: "A".to_string(),
        name: "n".to_string(),
        content: "5.6.7.8".to_string(),
        ttl: 1,
        proxied: Some(true),
    };
    let view = DnsRecordView::from_record(&rec);
    let resp = refresh_response(
        PublicIpRefreshResult { old_public_ip: Some("1.2.3.4".to_string()), new_public_ip: "5.6.7.8".to_string() },
        vec![view],
    );
    assert_eq!(resp.old_public_ip, Some("1.2.3.4".to_string()));
    assert_eq!(resp.new_public_ip, "5.6.7.8");
    assert_eq!(resp.dns_updated.len(), 1);
    assert_eq!(resp.dns_updated[0].proxied, Some(true));

    let t = target(Some("web"), "1", LifecycleState::CreatingImage);
    let tv = InstanceTargetView::from_target(&t);
    assert_eq!(tv.lifecycle_state, "CREATINGIMAGE");
    assert_eq!(tv.display_name, Some("web".to_string()));
}

#[test]
fn redacted_configuration() {
    let mut c = InstanceConfigFile::default();
    let r = redacted_config(&c);
    assert!(!r.cloudflare.api_token_set);
    c.cloudflare.api_token = "secret".to_string();
    c.cloudflare.zone_name = "example.com".to_string();
    let r = redacted_config(&c);
    assert!(r.cloudflare.api_token_set);
    assert_eq!(r.cloudflare.zone_name, "example.com");
    assert_eq!(r.instance.boot_volume_size_gb, 47);
    assert!(!format!("{:?}", r).contains("secret"));
}

#[test]
fn configuration_summary() {
    let mut c = InstanceConfigFile::default();
    c.oracle.ssh_public_key = "k".repeat(60);
    c.network.private_ip = Some("10.0.0.5".to_string());
    c.instance.instance_type = "arm".to_string();
    let lines = config_summary(&c);
    let expected = vec![
        "\n📋 Current Configuration".to_string(),
        "═══════════════════════════════════════".to_string(),
        "\n🔹 Oracle Cloud Config:".to_string(),
        "  Compartment ID: ocid1.compartment.oc1..your-compartment-id".to_string(),
        "  Availability Domain: your-region-AD-1".to_string(),
        "  Subnet ID: ocid1.subnet.oc1..your-subnet-id".to_string(),
        "  AMD Image: ocid1.image.oc1..your-amd-image-id".to_string(),
        "  ARM Image: ocid1.image.oc1..your-arm-image-id".to_string(),
        format!("  SSH Public Key: {}...", "k".repeat(50)),
        "\n🔹 Instance Config:".to_string(),
        "  Type: ARM Flex".to_string(),
        "  Name: my-instance".to_string(),
        "  OCPU: 2".to_string(),
        "  Memory: 12 GB".to_string(),
        "  Boot Volume: 47 GB".to_string(),
        "\n🔹 Network Config:".to_string(),
        "  Public IPv4: Yes".to_string(),
        "  IPv6:        No".to_string(),
        "  Private IPv4: 10.0.0.5".to_string(),
    ];
    assert_eq!(lines, expected);
    let d = config_summary(&InstanceConfigFile::default());
    assert_eq!(d[8], "  SSH Public Key: ssh-rsa AAAAB3NzaC1yc2E... your-ssh-public-key...");
    assert_eq!(d[10], "  Type: AMD Micro");
    assert_eq!(max_attempts_label(0), "unlimited");
    assert_eq!(max_attempts_label(25), "25");
}

#[test]
fn refreshing_keeps_listing_order() {
    let ts = vec![
        target(Some("b"), "2", LifecycleState::Running),
        target(Some("a"), "1", LifecycleState::Running),
        target(Some("c"), "3", LifecycleState::Stopped),
    ];
    let mut sorted = sort_targets(ts);
    record_refreshed_ip(&mut sorted[1], "7.7.7.7");
    let order: Vec<String> = sorted.iter().map(|t| t.instance_id.clone()).collect();
    let resorted = sort_targets(sorted.clone());
    let order2: Vec<String> = resorted.iter().map(|t| t.instance_id.clone()).collect();
    assert_eq!(order, order2);
    assert_eq!(order, vec!["1".to_string(), "2".to_string(), "3".to_string()]);
    assert_eq!(sorted[1].public_ip, Some("7.7.7.7".to_string()));
}
