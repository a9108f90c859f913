//! The payload types that the API's endpoints answer with or take.

pub mod cluster;
pub mod lxc;
pub mod node;
pub mod notifications;
pub mod system;
pub mod tasks;
pub mod vzdump;

use vstd::prelude::*;

use crate::error::ProxmoxAPIError;
use crate::json::{FromJson, JsonModel, WireName, member_of, opt_named_field, opt_named_of, str_equal, text_field, text_of};

verus! {

/// The version of the API server.
#[derive(Debug)]
pub struct PveVersion {
    /// The current point release, in `x.y` form.
    pub release: String,
    /// The short git revision the server was built from.
    pub repoid: String,
    /// The full version of the manager package.
    pub version: String,
    /// The default console viewer.
    pub console: Option<PveConsoleViewer>,
}

impl FromJson for PveVersion {
    open spec fn decodes(j: JsonModel, x: PveVersion) -> bool {
        &&& text_of(member_of(j, "release"@)) == Some(x.release@)
        &&& text_of(member_of(j, "repoid"@)) == Some(x.repoid@)
        &&& text_of(member_of(j, "version"@)) == Some(x.version@)
        &&& opt_named_of::<PveConsoleViewer>(member_of(j, "console"@)) == Some(x.console)
    }

    fn from_json(v: &serde_json::Value) -> (r: Result<PveVersion, ProxmoxAPIError>) {
        let release = text_field(v, "release")?;
        let repoid = text_field(v, "repoid")?;
        let version = text_field(v, "version")?;
        let console = opt_named_field::<PveConsoleViewer>(v, "console")?;
        Ok(PveVersion { release, repoid, version, console })
    }
}

/// The console viewers the server offers.
#[derive(Debug, Clone, Copy, PartialEq, Eq, Structural)]
pub enum PveConsoleViewer {
    Applet,
    VV,
    Html5,
    XTermJS,
}

impl PveConsoleViewer {
    /// The name this value is written as on the wire.
    pub open spec fn spec_wire_name(&self) -> Seq<char> {
        match self {
            PveConsoleViewer::Applet => "applet"@,
            PveConsoleViewer::VV => "vv"@,
            PveConsoleViewer::Html5 => "html5"@,
            PveConsoleViewer::XTermJS => "xtermjs"@,
        }
    }

    /// The name this value is written as on the wire.
    pub fn wire_name(&self) -> (r: &'static str)
        ensures
            r@ == self.spec_wire_name(),
    {
        match self {
            PveConsoleViewer::Applet => "applet",
            PveConsoleViewer::VV => "vv",
            PveConsoleViewer::Html5 => "html5",
            PveConsoleViewer::XTermJS => "xtermjs",
        }
    }
}

impl WireName for PveConsoleViewer {
    open spec fn spec_from_wire(s: Seq<char>) -> Option<PveConsoleViewer> {
        if s == "applet"@ {
            Some(PveConsoleViewer::Applet)
        } else if s == "vv"@ {
            Some(PveConsoleViewer::VV)
        } else if s == "html5"@ {
            Some(PveConsoleViewer::Html5)
        } else if s == "xtermjs"@ {
            Some(PveConsoleViewer::XTermJS)
        } else {
            None
        }
    }

    fn from_wire(s: &str) -> (r: Option<PveConsoleViewer>) {
        if str_equal(s, "applet") {
            Some(PveConsoleViewer::Applet)
        } else if str_equal(s, "vv") {
            Some(PveConsoleViewer::VV)
        } else if str_equal(s, "html5") {
            Some(PveConsoleViewer::Html5)
        } else if str_equal(s, "xtermjs") {
            Some(PveConsoleViewer::XTermJS)
        } else {
            None
        }
    }
}

/// The CPU architecture of a guest.
#[derive(Debug, Clone, Copy, PartialEq, Eq, Structural)]
pub enum Architecture {
    Amd64,
    I386,
    Arm64,
    ArmHF,
    RiscV32,
    RiscV64,
}

impl Architecture {
    /// The name this value is written as on the wire.
    pub open spec fn spec_wire_name(&self) -> Seq<char> {
        match self {
            Architecture::Amd64 => "amd64"@,
            Architecture::I386 => "i386"@,
            Architecture::Arm64 => "arm64"@,
            Architecture::ArmHF => "armhf"@,
            Architecture::RiscV32 => "riscv32"@,
            Architecture::RiscV64 => "riscv64"@,
        }
    }

    /// The name this value is written as on the wire.
    pub fn wire_name(&self) -> (r: &'static str)
        ensures
            r@ == self.spec_wire_name(),
    {
        match self {
            Architecture::Amd64 => "amd64",
            Architecture::I386 => "i386",
            Architecture::Arm64 => "arm64",
            Architecture::ArmHF => "armhf",
            Architecture::RiscV32 => "riscv32",
            Architecture::RiscV64 => "riscv64",
        }
    }
}

impl WireName for Architecture {
    open spec fn spec_from_wire(s: Seq<char>) -> Option<Architecture> {
        if s == "amd64"@ {
            Some(Architecture::Amd64)
        } else if s == "i386"@ {
            Some(Architecture::I386)
        } else if s == "arm64"@ {
            Some(Architecture::Arm64)
        } else if s == "armhf"@ {
            Some(Architecture::ArmHF)
        } else if s == "riscv32"@ {
            Some(Architecture::RiscV32)
        } else if s == "riscv64"@ {
            Some(Architecture::RiscV64)
        } else {
            None
        }
    }

    fn from_wire(s: &str) -> (r: Option<Architecture>) {
        if str_equal(s, "amd64") {
            Some(Architecture::Amd64)
        } else if str_equal(s, "i386") {
            Some(Architecture::I386)
        } else if str_equal(s, "arm64") {
            Some(Architecture::Arm64)
        } else if str_equal(s, "armhf") {
            Some(Architecture::ArmHF)
        } else if str_equal(s, "riscv32") {
            Some(Architecture::RiscV32)
        } else if str_equal(s, "riscv64") {
            Some(Architecture::RiscV64)
        } else {
            None
        }
    }
}

/// The operating system of a container, as its setup scripts know it.
#[derive(Debug, Clone, Copy, PartialEq, Eq, Structural)]
pub enum OSType {
    Debian,
    Devuan,
    Ubuntu,
    CentOS,
    Fedora,
    OpenSUSE,
    ArchLinux,
    Alpine,
    Gentoo,
    NixOS,
    Unmanaged,
}

impl OSType {
    /// The name this value is written as on the wire.
    pub open spec fn spec_wire_name(&self) -> Seq<char> {
        match self {
            OSType::Debian => "debian"@,
            OSType::Devuan => "devuan"@,
            OSType::Ubuntu => "ubuntu"@,
            OSType::CentOS => "centos"@,
            OSType::Fedora => "fedora"@,
            OSType::OpenSUSE => "opensuse"@,
            OSType::ArchLinux => "archlinux"@,
            OSType::Alpine => "alpine"@,
            OSType::Gentoo => "gentoo"@,
            OSType::NixOS => "nixos"@,
            OSType::Unmanaged => "unmanaged"@,
        }
    }

    /// The name this value is written as on the wire.
    pub fn wire_name(&self) -> (r: &'static str)
        ensures
            r@ == self.spec_wire_name(),
    {
        match self {
            OSType::Debian => "debian",
            OSType::Devuan => "devuan",
            OSType::Ubuntu => "ubuntu",
            OSType::CentOS => "centos",
            OSType::Fedora => "fedora",
            OSType::OpenSUSE => "opensuse",
            OSType::ArchLinux => "archlinux",
            OSType::Alpine => "alpine",
            OSType::Gentoo => "gentoo",
            OSType::NixOS => "nixos",
            OSType::Unmanaged => "unmanaged",
        }
    }
}

impl WireName for OSType {
    open spec fn spec_from_wire(s: Seq<char>) -> Option<OSType> {
        if s == "debian"@ {
            Some(OSType::Debian)
        } else if s == "devuan"@ {
            Some(OSType::Devuan)
        } else if s == "ubuntu"@ {
            Some(OSType::Ubuntu)
        } else if s == "centos"@ {
            Some(OSType::CentOS)
        } else if s == "fedora"@ {
            Some(OSType::Fedora)
        } else if s == "opensuse"@ {
            Some(OSType::OpenSUSE)
        } else if s == "archlinux"@ {
            Some(OSType::ArchLinux)
        } else if s == "alpine"@ {
            Some(OSType::Alpine)
        } else if s == "gentoo"@ {
            Some(OSType::Gentoo)
        } else if s == "nixos"@ {
            Some(OSType::NixOS)
        } else if s == "unmanaged"@ {
            Some(OSType::Unmanaged)
        } else {
            None
        }
    }

    fn from_wire(s: &str) -> (r: Option<OSType>) {
        if str_equal(s, "debian") {
            Some(OSType::Debian)
        } else if str_equal(s, "devuan") {
            Some(OSType::Devuan)
        } else if str_equal(s, "ubuntu") {
            Some(OSType::Ubuntu)
        } else if str_equal(s, "centos") {
            Some(OSType::CentOS)
        } else if str_equal(s, "fedora") {
            Some(OSType::Fedora)
        } else if str_equal(s, "opensuse") {
            Some(OSType::OpenSUSE)
        } else if str_equal(s, "archlinux") {
            Some(OSType::ArchLinux)
        } else if str_equal(s, "alpine") {
            Some(OSType::Alpine)
        } else if str_equal(s, "gentoo") {
            Some(OSType::Gentoo)
        } else if str_equal(s, "nixos") {
            Some(OSType::NixOS)
        } else if str_equal(s, "unmanaged") {
            Some(OSType::Unmanaged)
        } else {
            None
        }
    }
}

} // verus!
