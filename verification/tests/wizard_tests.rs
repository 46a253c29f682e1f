use cloud_manage::config::{CloudflareConfig, InstanceConfigFile};
use cloud_manage::oci_models::{AvailabilityDomain, Image, Subnet};
use cloud_manage::wizard::{
    apply_quick_config, arm_size_for_index, candidate_compartment, cloudflare_settings,
    default_cloudflare_domain, default_domain_index, default_ocpu_index, default_subnet_index,
    default_suffix, extract_ipv4_prefix, extract_ipv6_prefix, image_is_arm, image_major_version,
    image_major_versions, images_with_version, instance_type_for_index, is_valid_ocid,
    latest_image, mask_existing_secret, parse_cloudflare_domain, resolve_api_token, subnet_label,
    version_menu, versions_descending, wizard_summary,
};

#[test]
fn ocid_checks() {
    assert!(is_valid_ocid("ocid1.compartment.oc1..aaaaaaaabbbbbbbb", "compartment"));
    assert!(!is_valid_ocid("ocid1.compartment.oc1..your-compartment-id", "compartment"));
    assert!(!is_valid_ocid("ocid1.compartment.oc1", "compartment"));
    assert!(!is_valid_ocid("ocid1.tenancy.oc1..aaaaaaaabbbbbbbb", "compartment"));
    assert!(is_valid_ocid("ocid1.tenancy.oc1..aaaaaaaabbbbbbbb", "tenancy"));
}

#[test]
fn compartment_candidate() {
    let mut c = InstanceConfigFile::default();
    assert_eq!(candidate_compartment(&c), "ocid1.compartment.oc1..your-compartment-id");
    c.oci.tenancy = "ocid1.tenancy.oc1..tttttttttttttt".to_string();
    assert_eq!(candidate_compartment(&c), "ocid1.tenancy.oc1..tttttttttttttt");
    c.oracle.compartment_id = "ocid1.compartment.oc1..cccccccccccccc".to_string();
    assert_eq!(candidate_compartment(&c), "ocid1.compartment.oc1..cccccccccccccc");
}

#[test]
fn address_prefixes() {
    assert_eq!(extract_ipv4_prefix("10.0.1.0/24"), Some("10.0.".to_string()));
    assert_eq!(extract_ipv4_prefix("10.0/16"), None);
    assert_eq!(extract_ipv4_prefix("garbage"), None);
    assert_eq!(
        extract_ipv6_prefix("2001:db8:1234:5678::/64"),
        Some("2001:db8:1234:5678:".to_string())
    );
    assert_eq!(extract_ipv6_prefix("::/0"), None);
    assert_eq!(default_suffix("10.0.", "10.0.1.15"), "1.15");
    assert_eq!(default_suffix("10.0.", "192.168.1.2"), "192.168.1.2");
    assert_eq!(default_suffix("", "10.0.1.15"), "10.0.1.15");
}

#[test]
fn cloudflare_domain_answers() {
    assert_eq!(
        parse_cloudflare_domain(" app@example.com "),
        (Some("app".to_string()), "example.com".to_string())
    );
    assert_eq!(parse_cloudflare_domain("example.com"), (None, "example.com".to_string()));
    assert_eq!(parse_cloudflare_domain(" @example.com"), (None, "example.com".to_string()));
    let c = CloudflareConfig {
        api_token: "t".to_string(),
        zone_name: "example.com".to_string(),
        record_name: Some("app".to_string()),
    };
    assert_eq!(default_cloudflare_domain(&c), "app@example.com");
    let c2 = CloudflareConfig {
        api_token: String::new(),
        zone_name: String::new(),
        record_name: Some("app".to_string()),
    };
    assert_eq!(default_cloudflare_domain(&c2), "");
}

#[test]
fn defaults_round_trip() {
    // Accepting every offered default keeps the Cloudflare settings.
    let c = CloudflareConfig {
        api_token: "secret-token".to_string(),
        zone_name: "example.com".to_string(),
        record_name: Some("app".to_string()),
    };
    let mask = mask_existing_secret(&c.api_token);
    assert_eq!(mask, "********");
    let domain = default_cloudflare_domain(&c);
    let kept = cloudflare_settings(&mask, &c.api_token, &domain);
    assert_eq!(kept.api_token, c.api_token);
    assert_eq!(kept.zone_name, c.zone_name);
    assert_eq!(kept.record_name, c.record_name);
}

#[test]
fn token_answers() {
    assert_eq!(mask_existing_secret(""), "");
    assert_eq!(resolve_api_token("********", "old"), "old");
    assert_eq!(resolve_api_token("", "old"), "old");
    assert_eq!(resolve_api_token("new-token", "old"), "new-token");
    assert_eq!(resolve_api_token("**x", "old"), "**x");
}

fn domain(name: &str) -> AvailabilityDomain {
    AvailabilityDomain { name: name.to_string(), compartment_id: "c".to_string() }
}

fn subnet(id: &str) -> Subnet {
    Subnet {
        id: id.to_string(),
        compartment_id: "c".to_string(),
        vcn_id: "v".to_string(),
        display_name: None,
        cidr_block: Some("10.0.0.0/24".to_string()),
        ipv6_cidr_block: None,
        lifecycle_state: "AVAILABLE".to_string(),
        availability_domain: None,
    }
}

#[test]
fn selection_defaults() {
    let ds = vec![domain("AD-1"), domain("AD-2"), domain("AD-2")];
    assert_eq!(default_domain_index(&ds, "AD-2"), 1);
    assert_eq!(default_domain_index(&ds, "AD-9"), 0);
    let ss = vec![subnet("s1"), subnet("s2")];
    assert_eq!(default_subnet_index(&ss, "s2"), 1);
    assert_eq!(default_subnet_index(&ss, "zz"), 0);
    assert_eq!(default_ocpu_index(None), 1);
    assert_eq!(default_ocpu_index(Some(0)), 0);
    assert_eq!(default_ocpu_index(Some(4)), 3);
    assert_eq!(default_ocpu_index(Some(9)), 3);
    assert_eq!(instance_type_for_index(0), "amd");
    assert_eq!(instance_type_for_index(1), "arm");
    assert_eq!(arm_size_for_index(0), (1, 6));
    assert_eq!(arm_size_for_index(3), (4, 24));
}

#[test]
fn quick_config_answers() {
    let mut c = InstanceConfigFile::default();
    apply_quick_config(&mut c, 1, "arm-box".to_string(), 2, false);
    assert_eq!(c.instance.instance_type, "arm");
    assert_eq!(c.instance.display_name, "arm-box");
    assert_eq!(c.instance.arm_ocpus, Some(3));
    assert_eq!(c.instance.arm_memory_gb, Some(18));
    assert!(!c.network.assign_public_ip);
    apply_quick_config(&mut c, 0, "amd-box".to_string(), 0, true);
    assert_eq!(c.instance.instance_type, "amd");
    assert_eq!(c.instance.arm_ocpus, None);
    assert_eq!(c.instance.arm_memory_gb, None);
    assert!(c.network.assign_public_ip);
}

fn image(name: Option<&str>, version: Option<&str>) -> Image {
    Image {
        id: format!("img-{}", name.unwrap_or("none")),
        compartment_id: None,
        display_name: name.map(|s| s.to_string()),
        operating_system: None,
        operating_system_version: version.map(|s| s.to_string()),
        lifecycle_state: None,
        time_created: None,
    }
}

#[test]
fn image_versions() {
    let a = image(Some("Oracle-Linux-9.4-2024.10.01-0"), Some("9.4"));
    assert_eq!(image_major_version(&a, "Oracle Linux"), Some("9".to_string()));
    let m = image(Some("Oracle-Linux-9.4-Minimal-2024"), Some("9.4"));
    assert_eq!(image_major_version(&m, "Oracle Linux"), None);
    let g = image(Some("Oracle-Linux-8-GPU-2024"), Some("8"));
    assert_eq!(image_major_version(&g, "Oracle Linux"), None);
    let w = image(Some("Windows-Server-2022-Standard-Edition-VM"), Some("Server 2022"));
    assert_eq!(image_major_version(&w, "Windows"), Some("2022".to_string()));
    let u = image(Some("Canonical-Ubuntu"), None);
    assert_eq!(image_major_version(&u, "Canonical Ubuntu"), Some("Unknown".to_string()));
}

#[test]
fn version_menu_and_latest_image() {
    let images = vec![
        image(Some("Oracle-Linux-8.10-2024.09.30-0"), Some("8.10")),
        image(Some("Oracle-Linux-9.4-2024.10.01-0"), Some("9.4")),
        image(Some("Oracle-Linux-9.4-aarch64-2024.10.01-0"), Some("9.4")),
        image(Some("Oracle-Linux-9.4-2024.11.05-0"), Some("9.4")),
        image(Some("Oracle-Linux-9-Minimal"), Some("9.4")),
        image(Some("Oracle-Linux-7.9-2024.01.01-0"), Some("7.9")),
    ];
    let majors = image_major_versions(&images, "Oracle Linux");
    assert_eq!(majors[4], None);
    let versions = versions_descending(&majors);
    assert_eq!(versions, vec!["9".to_string(), "8".to_string(), "7".to_string()]);
    let nine = images_with_version(&majors, "9");
    assert_eq!(nine, vec![1, 2, 3]);
    assert_eq!(image_is_arm(&images[2]), Some(true));
    assert_eq!(image_is_arm(&images[1]), Some(false));
    assert_eq!(image_is_arm(&image(None, None)), None);
    assert_eq!(latest_image(&images, &nine, false), Some(3));
    assert_eq!(latest_image(&images, &nine, true), Some(2));
    let seven = images_with_version(&majors, "7");
    assert_eq!(latest_image(&images, &seven, true), None);
}

#[test]
fn latest_image_prefers_last_of_equal_names() {
    let images = vec![image(Some("same"), Some("1")), image(Some("same"), Some("1"))];
    assert_eq!(latest_image(&images, &[0, 1], false), Some(1));
}

#[test]
fn closing_summary() {
    let mut c = InstanceConfigFile::default();
    c.instance.instance_type = "arm".to_string();
    c.instance.boot_volume_size_gb = 100;
    c.network.assign_ipv6 = true;
    c.network.hostname_label = Some("web".to_string());
    assert_eq!(
        wizard_summary(&c),
        vec![
            "Instance Type: ARM Flex".to_string(),
            "Instance Name: my-instance".to_string(),
            "OCPU: 2, Memory: 12 GB".to_string(),
            "Boot Volume: 100 GB".to_string(),
            "Public IPv4: Yes".to_string(),
            "IPv6: Yes".to_string(),
            "Hostname: web".to_string(),
        ]
    );
    c.instance.arm_memory_gb = None;
    assert_eq!(wizard_summary(&c).len(), 6);
}

#[test]
fn menu_entries() {
    let mut s = subnet("s1");
    assert_eq!(subnet_label(&s), "Unnamed (10.0.0.0/24)");
    s.display_name = Some("public".to_string());
    s.cidr_block = None;
    assert_eq!(subnet_label(&s), "public (N/A)");
    let versions: Vec<String> = ["9", "8", "7", "6"].iter().map(|v| v.to_string()).collect();
    assert_eq!(
        version_menu(&versions),
        vec!["Version 9".to_string(), "Version 8".to_string(), "Version 7".to_string(), "← Back".to_string()]
    );
    assert_eq!(version_menu(&versions[..1]), vec!["Version 9".to_string(), "← Back".to_string()]);
}
