//! Cluster-wide types: resources, status, and software-defined networking.

use vstd::prelude::*;

use crate::error::ProxmoxAPIError;
use crate::json::{FromJson, JsonModel, WireName, int_of_i16, int_of_i32, int_of_i64, int_of_u16, member_of, named_field, named_of, opt_bool_field, opt_bool_of, opt_signed_field, opt_signed_of, opt_text_field, opt_text_of, opt_unsigned_field, opt_unsigned_of, str_equal, text_field, text_of, text_view};

verus! {

/// The kinds of resource the cluster resource index can be filtered by.
#[derive(Debug, Clone, Copy, PartialEq, Eq, Structural)]
pub enum PveResourceType {
    VM,
    Storage,
    Node,
    Sdn,
}

impl PveResourceType {
    /// The name this value is written as on the wire.
    pub open spec fn spec_wire_name(&self) -> Seq<char> {
        match self {
            PveResourceType::VM => "vm"@,
            PveResourceType::Storage => "storage"@,
            PveResourceType::Node => "node"@,
            PveResourceType::Sdn => "sdn"@,
        }
    }

    /// The name this value is written as on the wire.
    pub fn wire_name(&self) -> (r: &'static str)
        ensures
            r@ == self.spec_wire_name(),
    {
        match self {
            PveResourceType::VM => "vm",
            PveResourceType::Storage => "storage",
            PveResourceType::Node => "node",
            PveResourceType::Sdn => "sdn",
        }
    }
}

impl WireName for PveResourceType {
    open spec fn spec_from_wire(s: Seq<char>) -> Option<PveResourceType> {
        if s == "vm"@ {
            Some(PveResourceType::VM)
        } else if s == "storage"@ {
            Some(PveResourceType::Storage)
        } else if s == "node"@ {
            Some(PveResourceType::Node)
        } else if s == "sdn"@ {
            Some(PveResourceType::Sdn)
        } else {
            None
        }
    }

    fn from_wire(s: &str) -> (r: Option<PveResourceType>) {
        if str_equal(s, "vm") {
            Some(PveResourceType::VM)
        } else if str_equal(s, "storage") {
            Some(PveResourceType::Storage)
        } else if str_equal(s, "node") {
            Some(PveResourceType::Node)
        } else if str_equal(s, "sdn") {
            Some(PveResourceType::Sdn)
        } else {
            None
        }
    }
}

/// Whether a configuration entry was created by a user or is built in.
#[derive(Debug, Clone, Copy, PartialEq, Eq, Structural)]
pub enum PveResourceOrigin {
    UserCreated,
    Builtin,
    ModifiedBuiltIn,
}

impl WireName for PveResourceOrigin {
    open spec fn spec_from_wire(s: Seq<char>) -> Option<PveResourceOrigin> {
        if s == "user-created"@ {
            Some(PveResourceOrigin::UserCreated)
        } else if s == "builtin"@ {
            Some(PveResourceOrigin::Builtin)
        } else if s == "modified-builtin"@ {
            Some(PveResourceOrigin::ModifiedBuiltIn)
        } else {
            None
        }
    }

    fn from_wire(s: &str) -> (r: Option<PveResourceOrigin>) {
        if str_equal(s, "user-created") {
            Some(PveResourceOrigin::UserCreated)
        } else if str_equal(s, "builtin") {
            Some(PveResourceOrigin::Builtin)
        } else if str_equal(s, "modified-builtin") {
            Some(PveResourceOrigin::ModifiedBuiltIn)
        } else {
            None
        }
    }
}

/// The encryption an SMTP connection uses.
#[derive(Debug, Clone, Copy, PartialEq, Eq, Structural)]
pub enum PveEncryptMode {
    Insecure,
    StartTls,
    Tls,
}

impl WireName for PveEncryptMode {
    open spec fn spec_from_wire(s: Seq<char>) -> Option<PveEncryptMode> {
        if s == "insecure"@ {
            Some(PveEncryptMode::Insecure)
        } else if s == "starttls"@ {
            Some(PveEncryptMode::StartTls)
        } else if s == "tls"@ {
            Some(PveEncryptMode::Tls)
        } else {
            None
        }
    }

    fn from_wire(s: &str) -> (r: Option<PveEncryptMode>) {
        if str_equal(s, "insecure") {
            Some(PveEncryptMode::Insecure)
        } else if str_equal(s, "starttls") {
            Some(PveEncryptMode::StartTls)
        } else if str_equal(s, "tls") {
            Some(PveEncryptMode::Tls)
        } else {
            None
        }
    }
}

/// Whether a cluster status entry describes the cluster or a node.
#[derive(Debug, Clone, Copy, PartialEq, Eq, Structural)]
pub enum PveType {
    Cluster,
    Node,
}

impl PveType {
    /// The name this value is written as on the wire.
    pub open spec fn spec_wire_name(&self) -> Seq<char> {
        match self {
            PveType::Cluster => "cluster"@,
            PveType::Node => "node"@,
        }
    }

    /// The name this value is written as on the wire.
    pub fn wire_name(&self) -> (r: &'static str)
        ensures
            r@ == self.spec_wire_name(),
    {
        match self {
            PveType::Cluster => "cluster",
            PveType::Node => "node",
        }
    }
}

impl WireName for PveType {
    open spec fn spec_from_wire(s: Seq<char>) -> Option<PveType> {
        if s == "cluster"@ {
            Some(PveType::Cluster)
        } else if s == "node"@ {
            Some(PveType::Node)
        } else {
            None
        }
    }

    fn from_wire(s: &str) -> (r: Option<PveType>) {
        if str_equal(s, "cluster") {
            Some(PveType::Cluster)
        } else if str_equal(s, "node") {
            Some(PveType::Node)
        } else {
            None
        }
    }
}

/// One entry of the cluster resource index.
#[derive(Debug)]
pub struct PveClusterResource {
    /// Resource id.
    pub id: String,
    /// Resource type.
    pub resource_type: ResourceType,
    /// The cgroup mode the node operates under (for nodes).
    pub cgroup_mode: Option<i32>,
    /// Allowed storage content types (for storages).
    pub content: Option<String>,
    /// CPU utilization (for nodes and guests).
    pub cpu: Option<u16>,
    /// Used disk space in bytes.
    pub disk: Option<i64>,
    /// HA service status (for HA managed guests).
    pub hastate: Option<u16>,
    /// Support level (for nodes).
    pub level: Option<String>,
    /// Number of available CPUs.
    pub maxcpu: Option<u16>,
    /// Storage size, or root image size for guests, in bytes.
    pub maxdisk: Option<i64>,
    /// Available memory in bytes.
    pub maxmem: Option<i32>,
    /// Used memory in bytes.
    pub mem: Option<i32>,
    /// Name of the resource.
    pub name: Option<String>,
    /// The cluster node name.
    pub node: Option<String>,
    /// More specific type, if available.
    pub plugin_type: Option<String>,
    /// The pool name.
    pub pool: Option<String>,
    /// Resource type dependent status.
    pub status: Option<String>,
    /// The storage identifier (for storages).
    pub storage: Option<String>,
    /// Uptime in seconds.
    pub uptime: Option<i64>,
    /// The numerical guest id.
    pub vmid: Option<i16>,
}

impl FromJson for PveClusterResource {
    open spec fn decodes(j: JsonModel, x: PveClusterResource) -> bool {
        &&& text_of(member_of(j, "id"@)) == Some(x.id@)
        &&& named_of::<ResourceType>(member_of(j, "type"@)) == Some(x.resource_type)
        &&& opt_signed_of(member_of(j, "cgroup-mode"@), i32::MIN as int, i32::MAX as int) == Some(int_of_i32(x.cgroup_mode))
        &&& opt_text_of(member_of(j, "content"@)) == Some(text_view(x.content))
        &&& opt_unsigned_of(member_of(j, "cpu"@), u16::MAX as int) == Some(int_of_u16(x.cpu))
        &&& opt_signed_of(member_of(j, "disk"@), i64::MIN as int, i64::MAX as int) == Some(int_of_i64(x.disk))
        &&& opt_unsigned_of(member_of(j, "hastate"@), u16::MAX as int) == Some(int_of_u16(x.hastate))
        &&& opt_text_of(member_of(j, "level"@)) == Some(text_view(x.level))
        &&& opt_unsigned_of(member_of(j, "maxcpu"@), u16::MAX as int) == Some(int_of_u16(x.maxcpu))
        &&& opt_signed_of(member_of(j, "maxdisk"@), i64::MIN as int, i64::MAX as int) == Some(int_of_i64(x.maxdisk))
        &&& opt_signed_of(member_of(j, "maxmem"@), i32::MIN as int, i32::MAX as int) == Some(int_of_i32(x.maxmem))
        &&& opt_signed_of(member_of(j, "mem"@), i32::MIN as int, i32::MAX as int) == Some(int_of_i32(x.mem))
        &&& opt_text_of(member_of(j, "name"@)) == Some(text_view(x.name))
        &&& opt_text_of(member_of(j, "node"@)) == Some(text_view(x.node))
        &&& opt_text_of(member_of(j, "plugintype"@)) == Some(text_view(x.plugin_type))
        &&& opt_text_of(member_of(j, "pool"@)) == Some(text_view(x.pool))
        &&& opt_text_of(member_of(j, "status"@)) == Some(text_view(x.status))
        &&& opt_text_of(member_of(j, "storage"@)) == Some(text_view(x.storage))
        &&& opt_signed_of(member_of(j, "uptime"@), i64::MIN as int, i64::MAX as int) == Some(int_of_i64(x.uptime))
        &&& opt_signed_of(member_of(j, "vmid"@), i16::MIN as int, i16::MAX as int) == Some(int_of_i16(x.vmid))
    }

    fn from_json(v: &serde_json::Value) -> (r: Result<PveClusterResource, ProxmoxAPIError>) {
        let id = text_field(v, "id")?;
        let resource_type = named_field::<ResourceType>(v, "type")?;
        let cgroup_mode = match opt_signed_field(v, "cgroup-mode", i32::MIN as i64, i32::MAX as i64)? {
            Some(n) => Some(n as i32),
            None => None,
        };
        let content = opt_text_field(v, "content")?;
        let cpu = match opt_unsigned_field(v, "cpu", u16::MAX as u64)? {
            Some(n) => Some(n as u16),
            None => None,
        };
        let disk = opt_signed_field(v, "disk", i64::MIN, i64::MAX)?;
        let hastate = match opt_unsigned_field(v, "hastate", u16::MAX as u64)? {
            Some(n) => Some(n as u16),
            None => None,
        };
        let level = opt_text_field(v, "level")?;
        let maxcpu = match opt_unsigned_field(v, "maxcpu", u16::MAX as u64)? {
            Some(n) => Some(n as u16),
            None => None,
        };
        let maxdisk = opt_signed_field(v, "maxdisk", i64::MIN, i64::MAX)?;
        let maxmem = match opt_signed_field(v, "maxmem", i32::MIN as i64, i32::MAX as i64)? {
            Some(n) => Some(n as i32),
            None => None,
        };
        let mem = match opt_signed_field(v, "mem", i32::MIN as i64, i32::MAX as i64)? {
            Some(n) => Some(n as i32),
            None => None,
        };
        let name = opt_text_field(v, "name")?;
        let node = opt_text_field(v, "node")?;
        let plugin_type = opt_text_field(v, "plugintype")?;
        let pool = opt_text_field(v, "pool")?;
        let status = opt_text_field(v, "status")?;
        let storage = opt_text_field(v, "storage")?;
        let uptime = opt_signed_field(v, "uptime", i64::MIN, i64::MAX)?;
        let vmid = match opt_signed_field(v, "vmid", i16::MIN as i64, i16::MAX as i64)? {
            Some(n) => Some(n as i16),
            None => None,
        };
        Ok(PveClusterResource { id, resource_type, cgroup_mode, content, cpu, disk, hastate, level, maxcpu, maxdisk, maxmem, mem, name, node, plugin_type, pool, status, storage, uptime, vmid })
    }
}

/// The type of a cluster resource, written with its variant name.
#[derive(Debug, Clone, Copy, PartialEq, Eq, Structural)]
pub enum ResourceType {
    Node,
    Storage,
    Pool,
    Qemu,
    LXC,
    OpenVZ,
    SDN,
}

impl ResourceType {
    /// The name this value is written as on the wire.
    pub open spec fn spec_wire_name(&self) -> Seq<char> {
        match self {
            ResourceType::Node => "Node"@,
            ResourceType::Storage => "Storage"@,
            ResourceType::Pool => "Pool"@,
            ResourceType::Qemu => "Qemu"@,
            ResourceType::LXC => "LXC"@,
            ResourceType::OpenVZ => "OpenVZ"@,
            ResourceType::SDN => "SDN"@,
        }
    }

    /// The name this value is written as on the wire.
    pub fn wire_name(&self) -> (r: &'static str)
        ensures
            r@ == self.spec_wire_name(),
    {
        match self {
            ResourceType::Node => "Node",
            ResourceType::Storage => "Storage",
            ResourceType::Pool => "Pool",
            ResourceType::Qemu => "Qemu",
            ResourceType::LXC => "LXC",
            ResourceType::OpenVZ => "OpenVZ",
            ResourceType::SDN => "SDN",
        }
    }
}

impl WireName for ResourceType {
    open spec fn spec_from_wire(s: Seq<char>) -> Option<ResourceType> {
        if s == "Node"@ {
            Some(ResourceType::Node)
        } else if s == "Storage"@ {
            Some(ResourceType::Storage)
        } else if s == "Pool"@ {
            Some(ResourceType::Pool)
        } else if s == "Qemu"@ {
            Some(ResourceType::Qemu)
        } else if s == "LXC"@ {
            Some(ResourceType::LXC)
        } else if s == "OpenVZ"@ {
            Some(ResourceType::OpenVZ)
        } else if s == "SDN"@ {
            Some(ResourceType::SDN)
        } else {
            None
        }
    }

    fn from_wire(s: &str) -> (r: Option<ResourceType>) {
        if str_equal(s, "Node") {
            Some(ResourceType::Node)
        } else if str_equal(s, "Storage") {
            Some(ResourceType::Storage)
        } else if str_equal(s, "Pool") {
            Some(ResourceType::Pool)
        } else if str_equal(s, "Qemu") {
            Some(ResourceType::Qemu)
        } else if str_equal(s, "LXC") {
            Some(ResourceType::LXC)
        } else if str_equal(s, "OpenVZ") {
            Some(ResourceType::OpenVZ)
        } else if str_equal(s, "SDN") {
            Some(ResourceType::SDN)
        } else {
            None
        }
    }
}

/// The kinds of SDN controller.
#[derive(Debug, Clone, Copy, PartialEq, Eq, Structural)]
#[allow(non_camel_case_types)]
pub enum SdnControllerType {
    BGP,
    eVPN,
    Faucet,
    Isis,
}

impl SdnControllerType {
    /// The name this value is written as on the wire.
    pub open spec fn spec_wire_name(&self) -> Seq<char> {
        match self {
            SdnControllerType::BGP => "bgp"@,
            SdnControllerType::eVPN => "evpn"@,
            SdnControllerType::Faucet => "faucet"@,
            SdnControllerType::Isis => "isis"@,
        }
    }

    /// The name this value is written as on the wire.
    pub fn wire_name(&self) -> (r: &'static str)
        ensures
            r@ == self.spec_wire_name(),
    {
        match self {
            SdnControllerType::BGP => "bgp",
            SdnControllerType::eVPN => "evpn",
            SdnControllerType::Faucet => "faucet",
            SdnControllerType::Isis => "isis",
        }
    }
}

impl WireName for SdnControllerType {
    open spec fn spec_from_wire(s: Seq<char>) -> Option<SdnControllerType> {
        if s == "bgp"@ {
            Some(SdnControllerType::BGP)
        } else if s == "evpn"@ {
            Some(SdnControllerType::eVPN)
        } else if s == "faucet"@ {
            Some(SdnControllerType::Faucet)
        } else if s == "isis"@ {
            Some(SdnControllerType::Isis)
        } else {
            None
        }
    }

    fn from_wire(s: &str) -> (r: Option<SdnControllerType>) {
        if str_equal(s, "bgp") {
            Some(SdnControllerType::BGP)
        } else if str_equal(s, "evpn") {
            Some(SdnControllerType::eVPN)
        } else if str_equal(s, "faucet") {
            Some(SdnControllerType::Faucet)
        } else if str_equal(s, "isis") {
            Some(SdnControllerType::Isis)
        } else {
            None
        }
    }
}

/// The kinds of SDN zone.
#[derive(Debug, Clone, Copy, PartialEq, Eq, Structural)]
#[allow(non_camel_case_types)]
pub enum SdnZoneType {
    eVPN,
    Faucet,
    QINQ,
    Simple,
    Vlan,
    Vxlan,
}

impl SdnZoneType {
    /// The name this value is written as on the wire.
    pub open spec fn spec_wire_name(&self) -> Seq<char> {
        match self {
            SdnZoneType::eVPN => "evpn"@,
            SdnZoneType::Faucet => "faucet"@,
            SdnZoneType::QINQ => "qinq"@,
            SdnZoneType::Simple => "simple"@,
            SdnZoneType::Vlan => "vlan"@,
            SdnZoneType::Vxlan => "vxlan"@,
        }
    }

    /// The name this value is written as on the wire.
    pub fn wire_name(&self) -> (r: &'static str)
        ensures
            r@ == self.spec_wire_name(),
    {
        match self {
            SdnZoneType::eVPN => "evpn",
            SdnZoneType::Faucet => "faucet",
            SdnZoneType::QINQ => "qinq",
            SdnZoneType::Simple => "simple",
            SdnZoneType::Vlan => "vlan",
            SdnZoneType::Vxlan => "vxlan",
        }
    }
}

impl WireName for SdnZoneType {
    open spec fn spec_from_wire(s: Seq<char>) -> Option<SdnZoneType> {
        if s == "evpn"@ {
            Some(SdnZoneType::eVPN)
        } else if s == "faucet"@ {
            Some(SdnZoneType::Faucet)
        } else if s == "qinq"@ {
            Some(SdnZoneType::QINQ)
        } else if s == "simple"@ {
            Some(SdnZoneType::Simple)
        } else if s == "vlan"@ {
            Some(SdnZoneType::Vlan)
        } else if s == "vxlan"@ {
            Some(SdnZoneType::Vxlan)
        } else {
            None
        }
    }

    fn from_wire(s: &str) -> (r: Option<SdnZoneType>) {
        if str_equal(s, "evpn") {
            Some(SdnZoneType::eVPN)
        } else if str_equal(s, "faucet") {
            Some(SdnZoneType::Faucet)
        } else if str_equal(s, "qinq") {
            Some(SdnZoneType::QINQ)
        } else if str_equal(s, "simple") {
            Some(SdnZoneType::Simple)
        } else if str_equal(s, "vlan") {
            Some(SdnZoneType::Vlan)
        } else if str_equal(s, "vxlan") {
            Some(SdnZoneType::Vxlan)
        } else {
            None
        }
    }
}

/// The kinds of SDN IP address management.
#[derive(Debug, Clone, Copy, PartialEq, Eq, Structural)]
pub enum SdnIpamType {
    Netbox,
    Phpipam,
    Pve,
}

impl SdnIpamType {
    /// The name this value is written as on the wire.
    pub open spec fn spec_wire_name(&self) -> Seq<char> {
        match self {
            SdnIpamType::Netbox => "netbox"@,
            SdnIpamType::Phpipam => "phpipam"@,
            SdnIpamType::Pve => "pve"@,
        }
    }

    /// The name this value is written as on the wire.
    pub fn wire_name(&self) -> (r: &'static str)
        ensures
            r@ == self.spec_wire_name(),
    {
        match self {
            SdnIpamType::Netbox => "netbox",
            SdnIpamType::Phpipam => "phpipam",
            SdnIpamType::Pve => "pve",
        }
    }
}

impl WireName for SdnIpamType {
    open spec fn spec_from_wire(s: Seq<char>) -> Option<SdnIpamType> {
        if s == "netbox"@ {
            Some(SdnIpamType::Netbox)
        } else if s == "phpipam"@ {
            Some(SdnIpamType::Phpipam)
        } else if s == "pve"@ {
            Some(SdnIpamType::Pve)
        } else {
            None
        }
    }

    fn from_wire(s: &str) -> (r: Option<SdnIpamType>) {
        if str_equal(s, "netbox") {
            Some(SdnIpamType::Netbox)
        } else if str_equal(s, "phpipam") {
            Some(SdnIpamType::Phpipam)
        } else if str_equal(s, "pve") {
            Some(SdnIpamType::Pve)
        } else {
            None
        }
    }
}

/// An SDN controller.
#[derive(Debug)]
pub struct SdnController {
    /// The SDN controller object identifier.
    pub controller: String,
    /// The controller type.
    pub controller_type: String,
    /// Pending configuration.
    pub pending: Option<String>,
    pub state: Option<String>,
}

impl FromJson for SdnController {
    open spec fn decodes(j: JsonModel, x: SdnController) -> bool {
        &&& text_of(member_of(j, "controller"@)) == Some(x.controller@)
        &&& text_of(member_of(j, "type"@)) == Some(x.controller_type@)
        &&& opt_text_of(member_of(j, "pending"@)) == Some(text_view(x.pending))
        &&& opt_text_of(member_of(j, "state"@)) == Some(text_view(x.state))
    }

    fn from_json(v: &serde_json::Value) -> (r: Result<SdnController, ProxmoxAPIError>) {
        let controller = text_field(v, "controller")?;
        let controller_type = text_field(v, "type")?;
        let pending = opt_text_field(v, "pending")?;
        let state = opt_text_field(v, "state")?;
        Ok(SdnController { controller, controller_type, pending, state })
    }
}

/// An SDN DNS plugin.
#[derive(Debug)]
pub struct SdnDNS {
    /// The DNS plugin identifier.
    pub dns: String,
    /// The plugin type.
    pub dns_type: String,
}

impl FromJson for SdnDNS {
    open spec fn decodes(j: JsonModel, x: SdnDNS) -> bool {
        &&& text_of(member_of(j, "dns"@)) == Some(x.dns@)
        &&& text_of(member_of(j, "type"@)) == Some(x.dns_type@)
    }

    fn from_json(v: &serde_json::Value) -> (r: Result<SdnDNS, ProxmoxAPIError>) {
        let dns = text_field(v, "dns")?;
        let dns_type = text_field(v, "type")?;
        Ok(SdnDNS { dns, dns_type })
    }
}

/// An SDN IP address management plugin.
#[derive(Debug)]
pub struct SdnIpam {
    /// The IPAM plugin identifier.
    pub ipam: String,
    /// The plugin type.
    pub ipam_type: String,
}

impl FromJson for SdnIpam {
    open spec fn decodes(j: JsonModel, x: SdnIpam) -> bool {
        &&& text_of(member_of(j, "ipam"@)) == Some(x.ipam@)
        &&& text_of(member_of(j, "type"@)) == Some(x.ipam_type@)
    }

    fn from_json(v: &serde_json::Value) -> (r: Result<SdnIpam, ProxmoxAPIError>) {
        let ipam = text_field(v, "ipam")?;
        let ipam_type = text_field(v, "type")?;
        Ok(SdnIpam { ipam, ipam_type })
    }
}

/// An SDN zone.
#[derive(Debug)]
pub struct SdnZone {
    /// The zone type.
    pub zone_type: SdnZoneType,
    /// The SDN zone object identifier.
    pub zone: String,
    pub dhcp: Option<String>,
    pub dns: Option<String>,
    pub dnszone: Option<String>,
    pub ipam: Option<String>,
    pub mtu: Option<i16>,
    pub nodes: Option<String>,
    /// Pending configuration.
    pub pending: Option<String>,
    pub reversedns: Option<String>,
    pub state: Option<String>,
}

impl FromJson for SdnZone {
    open spec fn decodes(j: JsonModel, x: SdnZone) -> bool {
        &&& named_of::<SdnZoneType>(member_of(j, "type"@)) == Some(x.zone_type)
        &&& text_of(member_of(j, "zone"@)) == Some(x.zone@)
        &&& opt_text_of(member_of(j, "dhcp"@)) == Some(text_view(x.dhcp))
        &&& opt_text_of(member_of(j, "dns"@)) == Some(text_view(x.dns))
        &&& opt_text_of(member_of(j, "dnszone"@)) == Some(text_view(x.dnszone))
        &&& opt_text_of(member_of(j, "ipam"@)) == Some(text_view(x.ipam))
        &&& opt_signed_of(member_of(j, "mtu"@), i16::MIN as int, i16::MAX as int) == Some(int_of_i16(x.mtu))
        &&& opt_text_of(member_of(j, "nodes"@)) == Some(text_view(x.nodes))
        &&& opt_text_of(member_of(j, "pending"@)) == Some(text_view(x.pending))
        &&& opt_text_of(member_of(j, "reversedns"@)) == Some(text_view(x.reversedns))
        &&& opt_text_of(member_of(j, "state"@)) == Some(text_view(x.state))
    }

    fn from_json(v: &serde_json::Value) -> (r: Result<SdnZone, ProxmoxAPIError>) {
        let zone_type = named_field::<SdnZoneType>(v, "type")?;
        let zone = text_field(v, "zone")?;
        let dhcp = opt_text_field(v, "dhcp")?;
        let dns = opt_text_field(v, "dns")?;
        let dnszone = opt_text_field(v, "dnszone")?;
        let ipam = opt_text_field(v, "ipam")?;
        let mtu = match opt_signed_field(v, "mtu", i16::MIN as i64, i16::MAX as i64)? {
            Some(n) => Some(n as i16),
            None => None,
        };
        let nodes = opt_text_field(v, "nodes")?;
        let pending = opt_text_field(v, "pending")?;
        let reversedns = opt_text_field(v, "reversedns")?;
        let state = opt_text_field(v, "state")?;
        Ok(SdnZone { zone_type, zone, dhcp, dns, dnszone, ipam, mtu, nodes, pending, reversedns, state })
    }
}

/// One entry of the cluster status: the cluster itself or one node.
#[derive(Debug)]
pub struct PveClusterStatus {
    pub id: String,
    /// IP of the resolved node name (for nodes).
    pub ip: Option<String>,
    /// Subscription level (for nodes).
    pub level: Option<String>,
    /// Whether this is the responding node.
    pub local: Option<bool>,
    pub name: String,
    /// ID of the node in the corosync configuration.
    pub nodeid: Option<i32>,
    /// Node count, offline nodes included (for the cluster).
    pub nodes: Option<i32>,
    /// Whether the node is online.
    pub online: Option<bool>,
    /// Whether a majority of nodes is online (for the cluster).
    pub quorate: Option<bool>,
    /// Whether the entry describes the cluster or a node.
    pub pve_type: PveType,
    /// Current version of the corosync configuration file.
    pub version: Option<i32>,
}

impl FromJson for PveClusterStatus {
    open spec fn decodes(j: JsonModel, x: PveClusterStatus) -> bool {
        &&& text_of(member_of(j, "id"@)) == Some(x.id@)
        &&& opt_text_of(member_of(j, "ip"@)) == Some(text_view(x.ip))
        &&& opt_text_of(member_of(j, "level"@)) == Some(text_view(x.level))
        &&& opt_bool_of(member_of(j, "local"@)) == Some(x.local)
        &&& text_of(member_of(j, "name"@)) == Some(x.name@)
        &&& opt_signed_of(member_of(j, "nodeid"@), i32::MIN as int, i32::MAX as int) == Some(int_of_i32(x.nodeid))
        &&& opt_signed_of(member_of(j, "nodes"@), i32::MIN as int, i32::MAX as int) == Some(int_of_i32(x.nodes))
        &&& opt_bool_of(member_of(j, "online"@)) == Some(x.online)
        &&& opt_bool_of(member_of(j, "quorate"@)) == Some(x.quorate)
        &&& named_of::<PveType>(member_of(j, "type"@)) == Some(x.pve_type)
        &&& opt_signed_of(member_of(j, "version"@), i32::MIN as int, i32::MAX as int) == Some(int_of_i32(x.version))
    }

    fn from_json(v: &serde_json::Value) -> (r: Result<PveClusterStatus, ProxmoxAPIError>) {
        let id = text_field(v, "id")?;
        let ip = opt_text_field(v, "ip")?;
        let level = opt_text_field(v, "level")?;
        let local = opt_bool_field(v, "local")?;
        let name = text_field(v, "name")?;
        let nodeid = match opt_signed_field(v, "nodeid", i32::MIN as i64, i32::MAX as i64)? {
            Some(n) => Some(n as i32),
            None => None,
        };
        let nodes = match opt_signed_field(v, "nodes", i32::MIN as i64, i32::MAX as i64)? {
            Some(n) => Some(n as i32),
            None => None,
        };
        let online = opt_bool_field(v, "online")?;
        let quorate = opt_bool_field(v, "quorate")?;
        let pve_type = named_field::<PveType>(v, "type")?;
        let version = match opt_signed_field(v, "version", i32::MIN as i64, i32::MAX as i64)? {
            Some(n) => Some(n as i32),
            None => None,
        };
        Ok(PveClusterStatus { id, ip, level, local, name, nodeid, nodes, online, quorate, pve_type, version })
    }
}

} // verus!
