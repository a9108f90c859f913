//! Node system information: appliances, configuration, DNS, hosts,
//! network statistics, time, URL metadata and API command batches.

use vstd::prelude::*;

use crate::error::ProxmoxAPIError;
use crate::deserializers::{non_empty_str_field};
use crate::json::{FromJson, JsonModel, int_of_u64, member_of, named_field, named_of, nonempty_text_of, opt_unsigned_field, opt_unsigned_of, signed_field, signed_of, text_field, text_of, text_view, unsigned_field, unsigned_of};

verus! {

/// An appliance template that a node can download.
#[derive(Debug)]
pub struct ApplianceInformation {
    pub template: String,
    pub headline: String,
    pub source: String,
    pub description: String,
    pub location: String,
    pub appliance_type: String,
    pub infopage: String,
    pub os: String,
    pub version: String,
    pub manage_url: String,
    pub section: String,
    pub sha512sum: String,
    pub architecture: String,
    pub package: String,
}

impl FromJson for ApplianceInformation {
    open spec fn decodes(j: JsonModel, x: ApplianceInformation) -> bool {
        &&& text_of(member_of(j, "template"@)) == Some(x.template@)
        &&& text_of(member_of(j, "headline"@)) == Some(x.headline@)
        &&& text_of(member_of(j, "source"@)) == Some(x.source@)
        &&& text_of(member_of(j, "description"@)) == Some(x.description@)
        &&& text_of(member_of(j, "location"@)) == Some(x.location@)
        &&& text_of(member_of(j, "type"@)) == Some(x.appliance_type@)
        &&& text_of(member_of(j, "infopage"@)) == Some(x.infopage@)
        &&& text_of(member_of(j, "os"@)) == Some(x.os@)
        &&& text_of(member_of(j, "version"@)) == Some(x.version@)
        &&& text_of(member_of(j, "manageurl"@)) == Some(x.manage_url@)
        &&& text_of(member_of(j, "section"@)) == Some(x.section@)
        &&& text_of(member_of(j, "sha512sum"@)) == Some(x.sha512sum@)
        &&& text_of(member_of(j, "architecture"@)) == Some(x.architecture@)
        &&& text_of(member_of(j, "package"@)) == Some(x.package@)
    }

    fn from_json(v: &serde_json::Value) -> (r: Result<ApplianceInformation, ProxmoxAPIError>) {
        let template = text_field(v, "template")?;
        let headline = text_field(v, "headline")?;
        let source = text_field(v, "source")?;
        let description = text_field(v, "description")?;
        let location = text_field(v, "location")?;
        let appliance_type = text_field(v, "type")?;
        let infopage = text_field(v, "infopage")?;
        let os = text_field(v, "os")?;
        let version = text_field(v, "version")?;
        let manage_url = text_field(v, "manageurl")?;
        let section = text_field(v, "section")?;
        let sha512sum = text_field(v, "sha512sum")?;
        let architecture = text_field(v, "architecture")?;
        let package = text_field(v, "package")?;
        Ok(ApplianceInformation { template, headline, source, description, location, appliance_type, infopage, os, version, manage_url, section, sha512sum, architecture, package })
    }
}

/// A node configuration property, written with its variant name.
#[derive(Debug, Clone, Copy, PartialEq, Eq, Structural)]
pub enum Property {
    ACME,
    ACMEDomain0,
    ACMEDomain1,
    ACMEDomain2,
    ACMEDomain3,
    ACMEDomain4,
    ACMEDomain5,
    Description,
    StartAllOnBootDelay,
    WakeOnLan,
}

impl Property {
    /// The name this value is written as on the wire.
    pub open spec fn spec_wire_name(&self) -> Seq<char> {
        match self {
            Property::ACME => "ACME"@,
            Property::ACMEDomain0 => "ACMEDomain0"@,
            Property::ACMEDomain1 => "ACMEDomain1"@,
            Property::ACMEDomain2 => "ACMEDomain2"@,
            Property::ACMEDomain3 => "ACMEDomain3"@,
            Property::ACMEDomain4 => "ACMEDomain4"@,
            Property::ACMEDomain5 => "ACMEDomain5"@,
            Property::Description => "Description"@,
            Property::StartAllOnBootDelay => "StartAllOnBootDelay"@,
            Property::WakeOnLan => "WakeOnLan"@,
        }
    }

    /// The name this value is written as on the wire.
    pub fn wire_name(&self) -> (r: &'static str)
        ensures
            r@ == self.spec_wire_name(),
    {
        match self {
            Property::ACME => "ACME",
            Property::ACMEDomain0 => "ACMEDomain0",
            Property::ACMEDomain1 => "ACMEDomain1",
            Property::ACMEDomain2 => "ACMEDomain2",
            Property::ACMEDomain3 => "ACMEDomain3",
            Property::ACMEDomain4 => "ACMEDomain4",
            Property::ACMEDomain5 => "ACMEDomain5",
            Property::Description => "Description",
            Property::StartAllOnBootDelay => "StartAllOnBootDelay",
            Property::WakeOnLan => "WakeOnLan",
        }
    }
}

/// A node's configuration.
#[derive(Debug)]
pub struct NodeConfiguration {
    /// Node specific ACME settings.
    pub acme: Option<String>,
    /// ACME domain and validation plugin.
    pub acmedomain0: Option<String>,
    /// ACME domain and validation plugin.
    pub acmedomain1: Option<String>,
    /// ACME domain and validation plugin.
    pub acmedomain2: Option<String>,
    /// ACME domain and validation plugin.
    pub acmedomain3: Option<String>,
    /// ACME domain and validation plugin.
    pub acmedomain4: Option<String>,
    /// ACME domain and validation plugin.
    pub acmedomain5: Option<String>,
    /// Description of the node, shown in its notes panel.
    pub description: Option<String>,
    /// Digest of the configuration file, to detect concurrent changes.
    pub digest: Option<String>,
    /// Delay in seconds before the guests marked for boot are started.
    pub start_all_on_boot_delay: Option<u64>,
    /// MAC address for wake on LAN.
    pub wake_on_lan: Option<String>,
}

impl FromJson for NodeConfiguration {
    open spec fn decodes(j: JsonModel, x: NodeConfiguration) -> bool {
        &&& nonempty_text_of(member_of(j, "acme"@)) == Some(text_view(x.acme))
        &&& nonempty_text_of(member_of(j, "acmedomain0"@)) == Some(text_view(x.acmedomain0))
        &&& nonempty_text_of(member_of(j, "acmedomain1"@)) == Some(text_view(x.acmedomain1))
        &&& nonempty_text_of(member_of(j, "acmedomain2"@)) == Some(text_view(x.acmedomain2))
        &&& nonempty_text_of(member_of(j, "acmedomain3"@)) == Some(text_view(x.acmedomain3))
        &&& nonempty_text_of(member_of(j, "acmedomain4"@)) == Some(text_view(x.acmedomain4))
        &&& nonempty_text_of(member_of(j, "acmedomain5"@)) == Some(text_view(x.acmedomain5))
        &&& nonempty_text_of(member_of(j, "description"@)) == Some(text_view(x.description))
        &&& nonempty_text_of(member_of(j, "digest"@)) == Some(text_view(x.digest))
        &&& opt_unsigned_of(member_of(j, "startall-onboot-delay"@), u64::MAX as int) == Some(int_of_u64(x.start_all_on_boot_delay))
        &&& nonempty_text_of(member_of(j, "wakeonlan"@)) == Some(text_view(x.wake_on_lan))
    }

    fn from_json(v: &serde_json::Value) -> (r: Result<NodeConfiguration, ProxmoxAPIError>) {
        let acme = non_empty_str_field(v, "acme")?;
        let acmedomain0 = non_empty_str_field(v, "acmedomain0")?;
        let acmedomain1 = non_empty_str_field(v, "acmedomain1")?;
        let acmedomain2 = non_empty_str_field(v, "acmedomain2")?;
        let acmedomain3 = non_empty_str_field(v, "acmedomain3")?;
        let acmedomain4 = non_empty_str_field(v, "acmedomain4")?;
        let acmedomain5 = non_empty_str_field(v, "acmedomain5")?;
        let description = non_empty_str_field(v, "description")?;
        let digest = non_empty_str_field(v, "digest")?;
        let start_all_on_boot_delay = opt_unsigned_field(v, "startall-onboot-delay", u64::MAX)?;
        let wake_on_lan = non_empty_str_field(v, "wakeonlan")?;
        Ok(NodeConfiguration { acme, acmedomain0, acmedomain1, acmedomain2, acmedomain3, acmedomain4, acmedomain5, description, digest, start_all_on_boot_delay, wake_on_lan })
    }
}

/// A node's DNS settings.
#[derive(Debug)]
pub struct DnsSettings {
    /// First name server IP address.
    pub dns1: String,
    /// Second name server IP address.
    pub dns2: String,
    /// Third name server IP address.
    pub dns3: String,
    /// Search domain for host name lookup.
    pub search: String,
}

impl FromJson for DnsSettings {
    open spec fn decodes(j: JsonModel, x: DnsSettings) -> bool {
        &&& text_of(member_of(j, "dns1"@)) == Some(x.dns1@)
        &&& text_of(member_of(j, "dns2"@)) == Some(x.dns2@)
        &&& text_of(member_of(j, "dns3"@)) == Some(x.dns3@)
        &&& text_of(member_of(j, "search"@)) == Some(x.search@)
    }

    fn from_json(v: &serde_json::Value) -> (r: Result<DnsSettings, ProxmoxAPIError>) {
        let dns1 = text_field(v, "dns1")?;
        let dns2 = text_field(v, "dns2")?;
        let dns3 = text_field(v, "dns3")?;
        let search = text_field(v, "search")?;
        Ok(DnsSettings { dns1, dns2, dns3, search })
    }
}

/// One API call of a batch that a node executes.
#[derive(Debug)]
pub struct Command {
    /// A set of parameter names and their values.
    pub args: String,
    /// The HTTP method of the call.
    pub method: CommandMethod,
    /// A path relative to the node's API.
    pub path: String,
}

/// The HTTP method of a batched API call.
#[derive(Debug, Clone, Copy, PartialEq, Eq, Structural)]
pub enum CommandMethod {
    Get,
    Post,
    Put,
    Delete,
}

impl CommandMethod {
    /// The name this value is written as on the wire.
    pub open spec fn spec_wire_name(&self) -> Seq<char> {
        match self {
            CommandMethod::Get => "GET"@,
            CommandMethod::Post => "POST"@,
            CommandMethod::Put => "PUT"@,
            CommandMethod::Delete => "DELETE"@,
        }
    }

    /// The name this value is written as on the wire.
    pub fn wire_name(&self) -> (r: &'static str)
        ensures
            r@ == self.spec_wire_name(),
    {
        match self {
            CommandMethod::Get => "GET",
            CommandMethod::Post => "POST",
            CommandMethod::Put => "PUT",
            CommandMethod::Delete => "DELETE",
        }
    }
}

/// A node's hosts file.
#[derive(Debug)]
pub struct Hosts {
    /// The content of the hosts file.
    pub data: String,
    /// Digest of the file, to detect concurrent changes.
    pub digest: Option<String>,
}

impl FromJson for Hosts {
    open spec fn decodes(j: JsonModel, x: Hosts) -> bool {
        &&& text_of(member_of(j, "data"@)) == Some(x.data@)
        &&& nonempty_text_of(member_of(j, "digest"@)) == Some(text_view(x.digest))
    }

    fn from_json(v: &serde_json::Value) -> (r: Result<Hosts, ProxmoxAPIError>) {
        let data = text_field(v, "data")?;
        let digest = non_empty_str_field(v, "digest")?;
        Ok(Hosts { data, digest })
    }
}

/// Network traffic of one guest interface.
#[derive(Debug)]
pub struct NetStat {
    pub vmid: String,
    pub traffic_in: String,
    pub traffic_out: String,
    pub dev: String,
}

impl FromJson for NetStat {
    open spec fn decodes(j: JsonModel, x: NetStat) -> bool {
        &&& text_of(member_of(j, "vmid"@)) == Some(x.vmid@)
        &&& text_of(member_of(j, "in"@)) == Some(x.traffic_in@)
        &&& text_of(member_of(j, "out"@)) == Some(x.traffic_out@)
        &&& text_of(member_of(j, "dev"@)) == Some(x.dev@)
    }

    fn from_json(v: &serde_json::Value) -> (r: Result<NetStat, ProxmoxAPIError>) {
        let vmid = text_field(v, "vmid")?;
        let traffic_in = text_field(v, "in")?;
        let traffic_out = text_field(v, "out")?;
        let dev = text_field(v, "dev")?;
        Ok(NetStat { vmid, traffic_in, traffic_out, dev })
    }
}

/// A node's clock.
#[derive(Debug)]
pub struct Time {
    /// Seconds since the epoch, in local time.
    pub localtime: i64,
    /// Seconds since the epoch, UTC.
    pub time: i64,
    /// Time zone.
    pub timezone: String,
}

impl FromJson for Time {
    open spec fn decodes(j: JsonModel, x: Time) -> bool {
        &&& signed_of(member_of(j, "localtime"@), i64::MIN as int, i64::MAX as int) == Some(x.localtime as int)
        &&& signed_of(member_of(j, "time"@), i64::MIN as int, i64::MAX as int) == Some(x.time as int)
        &&& text_of(member_of(j, "timezone"@)) == Some(x.timezone@)
    }

    fn from_json(v: &serde_json::Value) -> (r: Result<Time, ProxmoxAPIError>) {
        let localtime = signed_field(v, "localtime", i64::MIN, i64::MAX)?;
        let time = signed_field(v, "time", i64::MIN, i64::MAX)?;
        let timezone = text_field(v, "timezone")?;
        Ok(Time { localtime, time, timezone })
    }
}

/// What a node learned about a URL before downloading it.
#[derive(Debug)]
pub struct UrlMetadata {
    pub filename: String,
    pub mime_type: String,
    pub size: u64,
}

impl FromJson for UrlMetadata {
    open spec fn decodes(j: JsonModel, x: UrlMetadata) -> bool {
        &&& text_of(member_of(j, "filename"@)) == Some(x.filename@)
        &&& text_of(member_of(j, "mimetype"@)) == Some(x.mime_type@)
        &&& unsigned_of(member_of(j, "size"@), u64::MAX as int) == Some(x.size as int)
    }

    fn from_json(v: &serde_json::Value) -> (r: Result<UrlMetadata, ProxmoxAPIError>) {
        let filename = text_field(v, "filename")?;
        let mime_type = text_field(v, "mimetype")?;
        let size = unsigned_field(v, "size", u64::MAX)?;
        Ok(UrlMetadata { filename, mime_type, size })
    }
}

} // verus!
