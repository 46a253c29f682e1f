//! Data model of the Oracle Cloud compute and networking API.

use vstd::prelude::*;

verus! {

/// Instance lifecycle state.
#[derive(Debug, Clone, Copy, PartialEq, Eq, Structural)]
pub enum LifecycleState {
    Moving,
    Provisioning,
    Running,
    Starting,
    Stopping,
    Stopped,
    CreatingImage,
    Terminating,
    Terminated,
}

/// The variant name as `Debug` prints it.
pub open spec fn state_debug_name(s: LifecycleState) -> Seq<char> {
    match s {
        LifecycleState::Moving => "Moving"@,
        LifecycleState::Provisioning => "Provisioning"@,
        LifecycleState::Running => "Running"@,
        LifecycleState::Starting => "Starting"@,
        LifecycleState::Stopping => "Stopping"@,
        LifecycleState::Stopped => "Stopped"@,
        LifecycleState::CreatingImage => "CreatingImage"@,
        LifecycleState::Terminating => "Terminating"@,
        LifecycleState::Terminated => "Terminated"@,
    }
}

/// The variant name upper-cased (the `Debug` name passed through
/// `to_uppercase`, as the web views show it).
pub open spec fn state_upper_name(s: LifecycleState) -> Seq<char> {
    match s {
        LifecycleState::Moving => "MOVING"@,
        LifecycleState::Provisioning => "PROVISIONING"@,
        LifecycleState::Running => "RUNNING"@,
        LifecycleState::Starting => "STARTING"@,
        LifecycleState::Stopping => "STOPPING"@,
        LifecycleState::Stopped => "STOPPED"@,
        LifecycleState::CreatingImage => "CREATINGIMAGE"@,
        LifecycleState::Terminating => "TERMINATING"@,
        LifecycleState::Terminated => "TERMINATED"@,
    }
}

impl LifecycleState {
    /// The variant name as `Debug` prints it.
    pub fn debug_name(&self) -> (r: &'static str)
        ensures
            r@ == state_debug_name(*self),
    {
        match self {
            LifecycleState::Moving => "Moving",
            LifecycleState::Provisioning => "Provisioning",
            LifecycleState::Running => "Running",
            LifecycleState::Starting => "Starting",
            LifecycleState::Stopping => "Stopping",
            LifecycleState::Stopped => "Stopped",
            LifecycleState::CreatingImage => "CreatingImage",
            LifecycleState::Terminating => "Terminating",
            LifecycleState::Terminated => "Terminated",
        }
    }

    /// The variant name in upper case.
    pub fn upper_name(&self) -> (r: &'static str)
        ensures
            r@ == state_upper_name(*self),
    {
        match self {
            LifecycleState::Moving => "MOVING",
            LifecycleState::Provisioning => "PROVISIONING",
            LifecycleState::Running => "RUNNING",
            LifecycleState::Starting => "STARTING",
            LifecycleState::Stopping => "STOPPING",
            LifecycleState::Stopped => "STOPPED",
            LifecycleState::CreatingImage => "CREATINGIMAGE",
            LifecycleState::Terminating => "TERMINATING",
            LifecycleState::Terminated => "TERMINATED",
        }
    }
}

/// Instance source: an image or a boot volume.
#[derive(Debug, Clone)]
pub enum InstanceSourceDetails {
    Image { image_id: String, boot_volume_size_in_gbs: Option<i64> },
    BootVolume { boot_volume_id: String },
}

/// One IPv6 address request on a VNIC.
#[derive(Debug, Clone)]
pub struct Ipv6AddressDetails {
    pub ipv6_address: Option<String>,
    pub ipv6_subnet_cidr: Option<String>,
}

/// VNIC creation details.
#[derive(Debug, Clone)]
pub struct CreateVnicDetails {
    pub subnet_id: String,
    pub assign_public_ip: Option<bool>,
    pub display_name: Option<String>,
    pub hostname_label: Option<String>,
    pub private_ip: Option<String>,
    pub assign_ipv6_ip: Option<bool>,
    pub ipv6_address_ipv6_subnet_cidr_pair_details: Option<Vec<Ipv6AddressDetails>>,
}

/// Shape configuration of a flexible shape, in whole OCPUs and gigabytes.
#[derive(Debug, Clone)]
pub struct LaunchInstanceShapeConfigDetails {
    pub ocpus: Option<u8>,
    pub memory_in_gbs: Option<u8>,
}

/// Launch instance request details.
#[derive(Debug, Clone)]
pub struct LaunchInstanceDetails {
    pub availability_domain: String,
    pub compartment_id: String,
    pub shape: String,
    pub source_details: InstanceSourceDetails,
    pub create_vnic_details: Option<CreateVnicDetails>,
    pub display_name: Option<String>,
    pub hostname_label: Option<String>,
    /// Key/value metadata, keys distinct.
    pub metadata: Option<Vec<(String, String)>>,
    pub shape_config: Option<LaunchInstanceShapeConfigDetails>,
    /// Freeform tags, keys distinct.
    pub freeform_tags: Option<Vec<(String, String)>>,
}

/// Instance information.
#[derive(Debug, Clone)]
pub struct Instance {
    pub id: String,
    pub compartment_id: String,
    pub availability_domain: String,
    pub lifecycle_state: LifecycleState,
    pub shape: String,
    pub region: String,
    pub display_name: Option<String>,
    pub time_created: Option<String>,
    pub image_id: Option<String>,
}

/// Availability domain.
#[derive(Debug, Clone)]
pub struct AvailabilityDomain {
    pub name: String,
    pub compartment_id: String,
}

/// Image information.
#[derive(Debug, Clone)]
pub struct Image {
    pub id: String,
    pub compartment_id: Option<String>,
    pub display_name: Option<String>,
    pub operating_system: Option<String>,
    pub operating_system_version: Option<String>,
    pub lifecycle_state: Option<String>,
    pub time_created: Option<String>,
}

/// Virtual cloud network.
#[derive(Debug, Clone)]
pub struct Vcn {
    pub id: String,
    pub compartment_id: String,
    pub display_name: Option<String>,
    pub cidr_block: Option<String>,
    pub lifecycle_state: String,
}

/// Subnet.
#[derive(Debug, Clone)]
pub struct Subnet {
    pub id: String,
    pub compartment_id: String,
    pub vcn_id: String,
    pub display_name: Option<String>,
    pub cidr_block: Option<String>,
    pub ipv6_cidr_block: Option<String>,
    pub lifecycle_state: String,
    pub availability_domain: Option<String>,
}

/// Attachment of a VNIC to an instance.
#[derive(Debug, Clone)]
pub struct VnicAttachment {
    pub id: String,
    pub vnic_id: Option<String>,
    pub nic_index: Option<i32>,
}

/// Virtual network interface.
#[derive(Debug, Clone)]
pub struct Vnic {
    pub id: String,
    pub display_name: Option<String>,
    pub public_ip: Option<String>,
}

/// Private IP on a VNIC.
#[derive(Debug, Clone)]
pub struct PrivateIp {
    pub id: String,
    pub ip_address: Option<String>,
    pub is_primary: bool,
}

/// Public IP.
#[derive(Debug, Clone)]
pub struct PublicIp {
    pub id: String,
    pub ip_address: String,
}

/// Public IP creation details.
#[derive(Debug, Clone)]
pub struct CreatePublicIpDetails {
    pub compartment_id: String,
    pub lifetime: String,
    pub private_ip_id: Option<String>,
    pub display_name: Option<String>,
}

} // verus!
