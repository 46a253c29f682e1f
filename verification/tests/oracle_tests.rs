use cloud_manage::config::InstanceConfigFile;
use cloud_manage::oci_models::{
    Instance, InstanceSourceDetails, LifecycleState, PrivateIp, PublicIp, Vnic, VnicAttachment,
};
use cloud_manage::oracle::{
    build_instance_config, build_launch_details, check_refresh_state, is_listed_state,
    pick_private_ip, pick_vnic_id, plan_public_ip_refresh, public_ipv4_target, refresh_result,
    wait_step, AlwaysFreeInstanceType, InstanceConfig, PublicIpv4Target, WaitStep,
};

#[test]
fn test_instance_type_validation() {
    assert!(AlwaysFreeInstanceType::AmdMicro.validate().is_ok());

    assert!(AlwaysFreeInstanceType::ArmFlex { ocpus: 1, memory_gb: 6 }.validate().is_ok());
    assert!(AlwaysFreeInstanceType::ArmFlex { ocpus: 2, memory_gb: 12 }.validate().is_ok());
    assert!(AlwaysFreeInstanceType::ArmFlex { ocpus: 4, memory_gb: 24 }.validate().is_ok());

    assert!(AlwaysFreeInstanceType::ArmFlex { ocpus: 0, memory_gb: 6 }.validate().is_err());
    assert!(AlwaysFreeInstanceType::ArmFlex { ocpus: 5, memory_gb: 30 }.validate().is_err());
    assert!(AlwaysFreeInstanceType::ArmFlex { ocpus: 2, memory_gb: 10 }.validate().is_err());
}

#[test]
fn test_instance_config_builder() {
    let config = InstanceConfig::amd_micro("test-instance")
        .with_public_ip(false)
        .with_boot_volume_size(50)
        .with_tag("env", "test");

    assert_eq!(config.display_name, "test-instance");
    assert!(!config.assign_public_ip);
    assert_eq!(config.boot_volume_size_gb, Some(50));
    assert!(config.tags.is_some());
}

#[test]
fn validation_messages() {
    assert_eq!(
        AlwaysFreeInstanceType::ArmFlex { ocpus: 0, memory_gb: 6 }.validate(),
        Err("ARM Flex OCPU must be between 1-4".to_string())
    );
    assert_eq!(
        AlwaysFreeInstanceType::ArmFlex { ocpus: 2, memory_gb: 30 }.validate(),
        Err("ARM Flex memory must be between 6-24 GB".to_string())
    );
    assert_eq!(
        AlwaysFreeInstanceType::ArmFlex { ocpus: 2, memory_gb: 10 }.validate(),
        Err("ARM Flex memory mismatch: 2 OCPU requires 12 GB memory".to_string())
    );
    assert_eq!(
        AlwaysFreeInstanceType::ArmFlex { ocpus: 3, memory_gb: 24 }.validate(),
        Err("ARM Flex memory mismatch: 3 OCPU requires 18 GB memory".to_string())
    );
}

#[test]
fn shapes() {
    assert_eq!(AlwaysFreeInstanceType::AmdMicro.shape(), "VM.Standard.E2.1.Micro");
    assert_eq!(
        AlwaysFreeInstanceType::ArmFlex { ocpus: 1, memory_gb: 6 }.shape(),
        "VM.Standard.A1.Flex"
    );
}

#[test]
fn with_tag_overwrites_same_key() {
    let config = InstanceConfig::arm_flex("a", 2, 12)
        .with_tag("env", "dev")
        .with_tag("team", "ops")
        .with_tag("env", "prod");
    let tags = config.tags.unwrap();
    assert_eq!(tags.len(), 2);
    let env: Vec<&(String, String)> = tags.iter().filter(|(k, _)| k == "env").collect();
    assert_eq!(env.len(), 1);
    assert_eq!(env[0].1, "prod");
    assert!(tags.iter().any(|(k, v)| k == "team" && v == "ops"));
}

#[test]
fn override_display_name_ignores_blank() {
    let mut config = InstanceConfig::amd_micro("base");
    config.override_display_name(Some("   ".to_string()));
    assert_eq!(config.display_name, "base");
    config.override_display_name(None);
    assert_eq!(config.display_name, "base");
    config.override_display_name(Some("web-1".to_string()));
    assert_eq!(config.display_name, "web-1");
}

#[test]
fn instance_config_from_file() {
    let mut file = InstanceConfigFile::default();
    let amd = build_instance_config(&file);
    assert_eq!(amd.instance_type, AlwaysFreeInstanceType::AmdMicro);
    assert_eq!(amd.display_name, "my-instance");
    assert!(amd.assign_public_ip);
    assert_eq!(amd.boot_volume_size_gb, Some(47));
    assert_eq!(
        amd.tags,
        Some(vec![("managed-by".to_string(), "cloud-manage-rs".to_string())])
    );

    file.instance.instance_type = "arm".to_string();
    file.instance.arm_ocpus = None;
    file.instance.arm_memory_gb = Some(24);
    let arm = build_instance_config(&file);
    assert_eq!(arm.instance_type, AlwaysFreeInstanceType::ArmFlex { ocpus: 2, memory_gb: 24 });
}

#[test]
fn launch_details_small_boot_volume_dropped() {
    let mut file = InstanceConfigFile::default();
    file.network.assign_ipv6 = true;
    file.network.ipv6_address = Some("2001:db8::10".to_string());
    file.network.hostname_label = Some("web".to_string());
    let config = InstanceConfig::arm_flex("web", 1, 6).with_boot_volume_size(47);
    let d = build_launch_details(&file, &config).unwrap();
    assert_eq!(d.shape, "VM.Standard.A1.Flex");
    assert_eq!(d.availability_domain, "your-region-AD-1");
    match &d.source_details {
        InstanceSourceDetails::Image { image_id, boot_volume_size_in_gbs } => {
            assert_eq!(image_id, "ocid1.image.oc1..your-arm-image-id");
            assert_eq!(*boot_volume_size_in_gbs, None);
        }
        _ => panic!("expected an image source"),
    }
    let vnic = d.create_vnic_details.unwrap();
    assert_eq!(vnic.display_name, Some("web-vnic".to_string()));
    assert_eq!(vnic.hostname_label, Some("web".to_string()));
    assert_eq!(vnic.assign_ipv6_ip, Some(true));
    let v6 = vnic.ipv6_address_ipv6_subnet_cidr_pair_details.unwrap();
    assert_eq!(v6.len(), 1);
    assert_eq!(v6[0].ipv6_address, Some("2001:db8::10".to_string()));
    let shape = d.shape_config.unwrap();
    assert_eq!(shape.ocpus, Some(1));
    assert_eq!(shape.memory_in_gbs, Some(6));
    assert_eq!(
        d.metadata,
        Some(vec![(
            "ssh_authorized_keys".to_string(),
            "ssh-rsa AAAAB3NzaC1yc2E... your-ssh-public-key".to_string()
        )])
    );
    assert_eq!(d.freeform_tags, None);
}

#[test]
fn launch_details_large_boot_volume_kept() {
    let file = InstanceConfigFile::default();
    let config = InstanceConfig::amd_micro("x").with_boot_volume_size(100);
    let d = build_launch_details(&file, &config).unwrap();
    match &d.source_details {
        InstanceSourceDetails::Image { image_id, boot_volume_size_in_gbs } => {
            assert_eq!(image_id, "ocid1.image.oc1..your-amd-image-id");
            assert_eq!(*boot_volume_size_in_gbs, Some(100));
        }
        _ => panic!("expected an image source"),
    }
    assert!(d.shape_config.is_none());
    assert!(d.create_vnic_details.unwrap().ipv6_address_ipv6_subnet_cidr_pair_details.is_none());
}

#[test]
fn launch_details_refused_for_invalid_shape() {
    let file = InstanceConfigFile::default();
    let config = InstanceConfig::arm_flex("x", 2, 10);
    assert_eq!(
        build_launch_details(&file, &config).err(),
        Some("ARM Flex memory mismatch: 2 OCPU requires 12 GB memory".to_string())
    );
}

fn attachment(vnic: Option<&str>, index: Option<i32>) -> VnicAttachment {
    VnicAttachment { id: "att".to_string(), vnic_id: vnic.map(|s| s.to_string()), nic_index: index }
}

#[test]
fn vnic_choice() {
    let a = vec![attachment(Some("v1"), Some(1)), attachment(Some("v0"), Some(0))];
    assert_eq!(pick_vnic_id(&a), Ok("v0".to_string()));
    let b = vec![attachment(None, Some(0)), attachment(Some("v2"), Some(2))];
    assert_eq!(pick_vnic_id(&b), Ok("v2".to_string()));
    let c = vec![attachment(None, Some(0))];
    assert_eq!(pick_vnic_id(&c), Err("no VNIC attachment found for instance".to_string()));
}

fn private(id: &str, primary: bool) -> PrivateIp {
    PrivateIp { id: id.to_string(), ip_address: Some("10.0.0.2".to_string()), is_primary: primary }
}

#[test]
fn private_ip_choice() {
    assert_eq!(pick_private_ip(&[private("a", false), private("b", true)]), Ok(1));
    assert_eq!(pick_private_ip(&[private("a", false), private("b", false)]), Ok(0));
    assert_eq!(pick_private_ip(&[]), Err("no private IPv4 found on instance VNIC".to_string()));
}

fn instance(state: LifecycleState) -> Instance {
    Instance {
        id: "ocid1.instance.oc1..i".to_string(),
        compartment_id: "ocid1.compartment.oc1..c".to_string(),
        availability_domain: "AD-1".to_string(),
        lifecycle_state: state,
        shape: "VM.Standard.E2.1.Micro".to_string(),
        region: "us-ashburn-1".to_string(),
        display_name: Some("web".to_string()),
        time_created: None,
        image_id: None,
    }
}

fn vnic(public: Option<&str>) -> Vnic {
    Vnic {
        id: "v".to_string(),
        display_name: Some("web-vnic".to_string()),
        public_ip: public.map(|s| s.to_string()),
    }
}

#[test]
fn target_with_looked_up_public_ip() {
    let t = public_ipv4_target(
        &instance(LifecycleState::Running),
        "pip",
        &vnic(Some("1.2.3.4")),
        Some(Ok(PublicIp { id: "pub".to_string(), ip_address: "1.2.3.4".to_string() })),
    );
    assert_eq!(t.public_ip_id, Some("pub".to_string()));
    assert_eq!(t.public_ip, Some("1.2.3.4".to_string()));
    assert_eq!(t.public_ip_error, None);
    assert_eq!(t.private_ip_id, "pip");
    assert_eq!(t.vnic_display_name, Some("web-vnic".to_string()));
}

#[test]
fn target_with_failed_lookup() {
    let t = public_ipv4_target(
        &instance(LifecycleState::Running),
        "pip",
        &vnic(Some("1.2.3.4")),
        Some(Err("boom".to_string())),
    );
    assert_eq!(t.public_ip_id, None);
    assert_eq!(t.public_ip, Some("1.2.3.4".to_string()));
    assert_eq!(t.public_ip_error, Some("public IP id lookup failed: boom".to_string()));
    let plan = plan_public_ip_refresh(&t);
    assert_eq!(
        plan.err(),
        Some("current public IPv4 was found, but its OCI public IP id could not be loaded; refusing to refresh without a deletable public IP id".to_string())
    );
}

#[test]
fn refresh_plan_and_result() {
    let t = public_ipv4_target(
        &instance(LifecycleState::Running),
        "pip",
        &vnic(Some("1.2.3.4")),
        Some(Ok(PublicIp { id: "pub".to_string(), ip_address: "1.2.3.4".to_string() })),
    );
    assert!(check_refresh_state(&t).is_ok());
    let plan = plan_public_ip_refresh(&t).unwrap();
    assert_eq!(plan.delete_public_ip_id, Some("pub".to_string()));
    assert_eq!(plan.create.lifetime, "EPHEMERAL");
    assert_eq!(plan.create.private_ip_id, Some("pip".to_string()));
    assert_eq!(plan.create.display_name, Some("web-vnic-refreshed-public-ip".to_string()));
    assert_eq!(plan.create.compartment_id, "ocid1.compartment.oc1..c");
    let r = refresh_result(&t, "5.6.7.8".to_string());
    assert_eq!(r.old_public_ip, Some("1.2.3.4".to_string()));
    assert_eq!(r.new_public_ip, "5.6.7.8");
}

#[test]
fn refresh_needs_running_instance() {
    let t: PublicIpv4Target =
        public_ipv4_target(&instance(LifecycleState::Stopped), "pip", &vnic(None), None);
    assert_eq!(t.public_ip, None);
    assert_eq!(
        check_refresh_state(&t),
        Err("instance must be RUNNING before refreshing public IPv4 (current: Stopped)".to_string())
    );
    let plan = plan_public_ip_refresh(&t).unwrap();
    assert_eq!(plan.delete_public_ip_id, None);
}

#[test]
fn waiting_steps() {
    assert!(matches!(wait_step(LifecycleState::Running), WaitStep::Done));
    assert!(matches!(wait_step(LifecycleState::Provisioning), WaitStep::Retry));
    match wait_step(LifecycleState::Terminating) {
        WaitStep::Failed(m) => assert_eq!(m, "Instance terminated"),
        _ => panic!("expected a failure"),
    }
    assert!(is_listed_state(LifecycleState::Stopped));
    assert!(!is_listed_state(LifecycleState::Terminated));
}
