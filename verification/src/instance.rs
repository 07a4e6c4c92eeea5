//! Service instances: as the host writes them, with every optional field
//! open, and as the registry takes them, with every default filled in.
use std::collections::HashMap;
use vstd::prelude::*;

verus! {

/// The bit pattern of the weight 1.0.
pub const DEFAULT_WEIGHT_BITS: u64 = 0x3FF0_0000_0000_0000;

/// The weight of an instance: an IEEE 754 double, held by its bit pattern
/// so that two weights are equal exactly when their bits are.
#[derive(Clone, Copy, Debug, PartialEq, Eq, Structural)]
pub struct Weight {
    pub bits: u64,
}

impl Weight {
    /// The weight with the given bit pattern.
    pub fn from_bits(bits: u64) -> (weight: Weight)
        ensures
            weight.bits == bits,
    {
        Weight { bits }
    }

    /// The weight 1.0, which an instance has unless it says otherwise.
    pub fn one() -> (weight: Weight)
        ensures
            weight.bits == DEFAULT_WEIGHT_BITS,
    {
        Weight { bits: DEFAULT_WEIGHT_BITS }
    }

    /// The bit pattern of the weight.
    pub fn to_bits(&self) -> (bits: u64)
        ensures
            bits == self.bits,
    {
        self.bits
    }
}

/// An instance as the host writes and reads it.
#[derive(Clone, Debug, PartialEq, Eq)]
pub struct NacosServiceInstance {
    /// Instance id; the server assigns one where it is absent.
    pub instance_id: Option<String>,
    /// Host address.
    pub ip: String,
    /// Port.
    pub port: i32,
    /// Weight, 1.0 where absent.
    pub weight: Option<Weight>,
    /// Healthy or not, healthy where absent.
    pub healthy: Option<bool>,
    /// Enabled or not, enabled where absent.
    pub enabled: Option<bool>,
    /// Ephemeral or not, ephemeral where absent.
    pub ephemeral: Option<bool>,
    /// Cluster name, `DEFAULT` where absent.
    pub cluster_name: Option<String>,
    /// Service name.
    pub service_name: Option<String>,
    /// Metadata, empty where absent.
    pub metadata: Option<HashMap<String, String>>,
}

/// An instance as the registry takes and gives it.
#[derive(Clone, Debug, PartialEq, Eq)]
pub struct ServiceInstance {
    pub instance_id: Option<String>,
    pub ip: String,
    pub port: i32,
    pub weight: Weight,
    pub healthy: bool,
    pub enabled: bool,
    pub ephemeral: bool,
    pub cluster_name: Option<String>,
    pub service_name: Option<String>,
    pub metadata: HashMap<String, String>,
}

/// The mathematical value of a [`NacosServiceInstance`].
pub struct NacosServiceInstanceView {
    pub instance_id: Option<Seq<char>>,
    pub ip: Seq<char>,
    pub port: int,
    pub weight: Option<u64>,
    pub healthy: Option<bool>,
    pub enabled: Option<bool>,
    pub ephemeral: Option<bool>,
    pub cluster_name: Option<Seq<char>>,
    pub service_name: Option<Seq<char>>,
    pub metadata: Option<Map<String, String>>,
}

/// The mathematical value of a [`ServiceInstance`].
pub struct ServiceInstanceView {
    pub instance_id: Option<Seq<char>>,
    pub ip: Seq<char>,
    pub port: int,
    pub weight: u64,
    pub healthy: bool,
    pub enabled: bool,
    pub ephemeral: bool,
    pub cluster_name: Option<Seq<char>>,
    pub service_name: Option<Seq<char>>,
    pub metadata: Map<String, String>,
}

/// The text of an optional string, where there is one.
pub open spec fn text_of(value: Option<String>) -> Option<Seq<char>> {
    match value {
        Some(text) => Some(text@),
        None => None,
    }
}

impl View for NacosServiceInstance {
    type V = NacosServiceInstanceView;

    open spec fn view(&self) -> NacosServiceInstanceView {
        NacosServiceInstanceView {
            instance_id: text_of(self.instance_id),
            ip: self.ip@,
            port: self.port as int,
            weight: match self.weight {
                Some(weight) => Some(weight.bits),
                None => None,
            },
            healthy: self.healthy,
            enabled: self.enabled,
            ephemeral: self.ephemeral,
            cluster_name: text_of(self.cluster_name),
            service_name: text_of(self.service_name),
            metadata: match self.metadata {
                Some(entries) => Some(entries@),
                None => None,
            },
        }
    }
}

impl View for ServiceInstance {
    type V = ServiceInstanceView;

    open spec fn view(&self) -> ServiceInstanceView {
        ServiceInstanceView {
            instance_id: text_of(self.instance_id),
            ip: self.ip@,
            port: self.port as int,
            weight: self.weight.bits,
            healthy: self.healthy,
            enabled: self.enabled,
            ephemeral: self.ephemeral,
            cluster_name: text_of(self.cluster_name),
            service_name: text_of(self.service_name),
            metadata: self.metadata@,
        }
    }
}

/// A flag, or `true` where it is absent.
pub open spec fn flag_or_true(flag: Option<bool>) -> bool {
    match flag {
        Some(value) => value,
        None => true,
    }
}

/// What the registry is given for an instance of the host: every field as
/// written, and for each absent one its default; weight 1.0, the three flags
/// on, the cluster `DEFAULT`, no metadata. The instance id and the service
/// name have no default and stay absent.
pub open spec fn resolved(host: NacosServiceInstanceView) -> ServiceInstanceView {
    ServiceInstanceView {
        instance_id: host.instance_id,
        ip: host.ip,
        port: host.port,
        weight: match host.weight {
            Some(bits) => bits,
            None => DEFAULT_WEIGHT_BITS,
        },
        healthy: flag_or_true(host.healthy),
        enabled: flag_or_true(host.enabled),
        ephemeral: flag_or_true(host.ephemeral),
        cluster_name: match host.cluster_name {
            Some(name) => Some(name),
            None => Some("DEFAULT"@),
        },
        service_name: host.service_name,
        metadata: match host.metadata {
            Some(entries) => entries,
            None => Map::empty(),
        },
    }
}

/// What the host is shown for an instance of the registry: every field as
/// it is, and none of the defaulted ones absent.
pub open spec fn presented(remote: ServiceInstanceView) -> NacosServiceInstanceView {
    NacosServiceInstanceView {
        instance_id: remote.instance_id,
        ip: remote.ip,
        port: remote.port,
        weight: Some(remote.weight),
        healthy: Some(remote.healthy),
        enabled: Some(remote.enabled),
        ephemeral: Some(remote.ephemeral),
        cluster_name: remote.cluster_name,
        service_name: remote.service_name,
        metadata: Some(remote.metadata),
    }
}

/// The values of a list of host instances, in order.
pub open spec fn host_views(list: Seq<NacosServiceInstance>) -> Seq<NacosServiceInstanceView> {
    Seq::new(list.len(), |i: int| list[i]@)
}

/// The values of a list of registry instances, in order.
pub open spec fn remote_views(list: Seq<ServiceInstance>) -> Seq<ServiceInstanceView> {
    Seq::new(list.len(), |i: int| list[i]@)
}

/// A copy of an optional string.
pub fn clone_text(value: &Option<String>) -> (copy: Option<String>)
    ensures
        copy == *value,
{
    match value {
        Some(text) => Some(text.clone()),
        None => None,
    }
}

/// Resolves an instance of the host for the registry.
pub fn transfer_ffi_instance_to_rust(ffi_instance: &NacosServiceInstance) -> (rust_instance:
    ServiceInstance)
    ensures
        rust_instance@ == resolved(ffi_instance@),
{
    let weight = match ffi_instance.weight {
        Some(weight) => weight,
        None => Weight::one(),
    };
    let healthy = match ffi_instance.healthy {
        Some(flag) => flag,
        None => true,
    };
    let enabled = match ffi_instance.enabled {
        Some(flag) => flag,
        None => true,
    };
    let ephemeral = match ffi_instance.ephemeral {
        Some(flag) => flag,
        None => true,
    };
    let cluster_name = match &ffi_instance.cluster_name {
        Some(name) => name.clone(),
        None => "DEFAULT".to_owned(),
    };
    let metadata = match &ffi_instance.metadata {
        Some(entries) => entries.clone(),
        None => HashMap::new(),
    };
    ServiceInstance {
        instance_id: clone_text(&ffi_instance.instance_id),
        ip: ffi_instance.ip.clone(),
        port: ffi_instance.port,
        weight,
        healthy,
        enabled,
        ephemeral,
        cluster_name: Some(cluster_name),
        service_name: clone_text(&ffi_instance.service_name),
        metadata,
    }
}

/// Presents an instance of the registry to the host.
pub fn transfer_rust_instance_to_ffi(rust_instance: &ServiceInstance) -> (ffi_instance:
    NacosServiceInstance)
    ensures
        ffi_instance@ == presented(rust_instance@),
{
    NacosServiceInstance {
        instance_id: clone_text(&rust_instance.instance_id),
        ip: rust_instance.ip.clone(),
        port: rust_instance.port,
        weight: Some(rust_instance.weight),
        healthy: Some(rust_instance.healthy),
        enabled: Some(rust_instance.enabled),
        ephemeral: Some(rust_instance.ephemeral),
        cluster_name: clone_text(&rust_instance.cluster_name),
        service_name: clone_text(&rust_instance.service_name),
        metadata: Some(rust_instance.metadata.clone()),
    }
}

/// Resolves a list of host instances, one by one and in order.
pub fn transfer_ffi_instances_to_rust(ffi_instances: &Vec<NacosServiceInstance>) -> (rust_instances:
    Vec<ServiceInstance>)
    ensures
        remote_views(rust_instances@) == host_views(ffi_instances@).map_values(
            |host: NacosServiceInstanceView| resolved(host),
        ),
{
    let mut rust_instances: Vec<ServiceInstance> = Vec::new();
    let mut i: usize = 0;
    while i < ffi_instances.len()
        invariant
            i <= ffi_instances.len(),
            rust_instances.len() == i,
            forall|k: int|
                0 <= k < i ==> (#[trigger] rust_instances[k])@ == resolved(ffi_instances[k]@),
        decreases ffi_instances.len() - i,
    {
        rust_instances.push(transfer_ffi_instance_to_rust(&ffi_instances[i]));
        i += 1;
    }
    assert(remote_views(rust_instances@) =~= host_views(ffi_instances@).map_values(
        |host: NacosServiceInstanceView| resolved(host),
    ));
    rust_instances
}

/// Presents a list of registry instances, one by one and in order.
pub fn transfer_rust_instances_to_ffi(rust_instances: &Vec<ServiceInstance>) -> (ffi_instances:
    Vec<NacosServiceInstance>)
    ensures
        host_views(ffi_instances@) == remote_views(rust_instances@).map_values(
            |remote: ServiceInstanceView| presented(remote),
        ),
{
    let mut ffi_instances: Vec<NacosServiceInstance> = Vec::new();
    let mut i: usize = 0;
    while i < rust_instances.len()
        invariant
            i <= rust_instances.len(),
            ffi_instances.len() == i,
            forall|k: int|
                0 <= k < i ==> (#[trigger] ffi_instances[k])@ == presented(rust_instances[k]@),
        decreases rust_instances.len() - i,
    {
        ffi_instances.push(transfer_rust_instance_to_ffi(&rust_instances[i]));
        i += 1;
    }
    assert(host_views(ffi_instances@) =~= remote_views(rust_instances@).map_values(
        |remote: ServiceInstanceView| presented(remote),
    ));
    ffi_instances
}

/// An instance that went to the registry and came back reads as it was
/// resolved: presenting adds nothing and loses nothing.
pub proof fn lemma_resolved_is_stable(host: NacosServiceInstanceView)
    ensures
        resolved(presented(resolved(host))) == resolved(host),
{
}

} // verus!
