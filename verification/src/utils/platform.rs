//! The platform taxonomy: which family of operating systems the tool is
//! running on, and what each family supports. Detecting the platform takes
//! compile-time knowledge and a look at the filesystem, so the caller does
//! that and hands the result in.

use vstd::prelude::*;

verus! {

/// A supported platform family.
#[derive(Debug, Clone, Copy, PartialEq, Eq, Structural)]
pub enum Platform {
    Windows,
    Linux,
    MacOS,
    Android,
    OpenWrt,
    FreeBSD,
    NetBSD,
    OpenBSD,
    Unknown,
}

impl Platform {
    /// Whether the platform belongs to the Unix family.
    pub fn is_unix(&self) -> (r: bool)
        ensures
            r == (*self == Platform::Linux || *self == Platform::MacOS || *self
                == Platform::Android || *self == Platform::OpenWrt || *self == Platform::FreeBSD
                || *self == Platform::NetBSD || *self == Platform::OpenBSD),
    {
        match self {
            Platform::Linux | Platform::MacOS | Platform::Android | Platform::OpenWrt
                | Platform::FreeBSD | Platform::NetBSD | Platform::OpenBSD => true,
            _ => false,
        }
    }

    /// Whether the platform is Windows.
    pub fn is_windows(&self) -> (r: bool)
        ensures
            r == (*self == Platform::Windows),
    {
        match self {
            Platform::Windows => true,
            _ => false,
        }
    }

    /// Whether the platform runs a Linux kernel.
    pub fn is_linux_based(&self) -> (r: bool)
        ensures
            r == (*self == Platform::Linux || *self == Platform::Android || *self
                == Platform::OpenWrt),
    {
        match self {
            Platform::Linux | Platform::Android | Platform::OpenWrt => true,
            _ => false,
        }
    }

    /// Whether the platform descends from BSD.
    pub fn is_bsd(&self) -> (r: bool)
        ensures
            r == (*self == Platform::FreeBSD || *self == Platform::NetBSD || *self
                == Platform::OpenBSD),
    {
        match self {
            Platform::FreeBSD | Platform::NetBSD | Platform::OpenBSD => true,
            _ => false,
        }
    }

    /// The platform's display name.
    pub open spec fn spec_name(&self) -> Seq<char> {
        match self {
            Platform::Windows => "Windows"@,
            Platform::Linux => "Linux"@,
            Platform::MacOS => "macOS"@,
            Platform::Android => "Android"@,
            Platform::OpenWrt => "OpenWrt"@,
            Platform::FreeBSD => "FreeBSD"@,
            Platform::NetBSD => "NetBSD"@,
            Platform::OpenBSD => "OpenBSD"@,
            Platform::Unknown => "Unknown"@,
        }
    }

    /// Names the platform.
    pub fn name(&self) -> (r: &'static str)
        ensures
            r@ == self.spec_name(),
    {
        match self {
            Platform::Windows => "Windows",
            Platform::Linux => "Linux",
            Platform::MacOS => "macOS",
            Platform::Android => "Android",
            Platform::OpenWrt => "OpenWrt",
            Platform::FreeBSD => "FreeBSD",
            Platform::NetBSD => "NetBSD",
            Platform::OpenBSD => "OpenBSD",
            Platform::Unknown => "Unknown",
        }
    }
}

/// Which probing mechanism a feature name stands for, and whether the given
/// platform offers it: management-interface queries exist on Windows alone,
/// process-filesystem reads on the Linux family, the system-control call on
/// the BSDs and macOS; displays are enumerable except on Android and
/// embedded systems, batteries and graphics except on embedded systems, and
/// temperature and network interfaces everywhere.
pub open spec fn spec_feature_available(p: Platform, feature: Seq<char>) -> bool {
    if feature == "wmi"@ {
        p == Platform::Windows
    } else if feature == "proc"@ {
        p == Platform::Linux || p == Platform::Android || p == Platform::OpenWrt
    } else if feature == "sysctl"@ {
        p == Platform::FreeBSD || p == Platform::NetBSD || p == Platform::OpenBSD || p
            == Platform::MacOS
    } else if feature == "display_info"@ {
        p != Platform::Android && p != Platform::OpenWrt
    } else if feature == "battery"@ {
        p != Platform::OpenWrt
    } else if feature == "gpu"@ {
        p != Platform::OpenWrt
    } else if feature == "temperature"@ {
        true
    } else if feature == "network"@ {
        true
    } else {
        false
    }
}

/// Whether a feature is available on a platform.
pub fn feature_available(p: Platform, feature: &str) -> (r: bool)
    ensures
        r == spec_feature_available(p, feature@),
{
    if crate::strutil::str_eq(feature, "wmi") {
        p.is_windows()
    } else if crate::strutil::str_eq(feature, "proc") {
        p.is_linux_based()
    } else if crate::strutil::str_eq(feature, "sysctl") {
        let bsd: bool = p.is_bsd();
        bsd || p == Platform::MacOS
    } else if crate::strutil::str_eq(feature, "display_info") {
        !(p == Platform::Android || p == Platform::OpenWrt)
    } else if crate::strutil::str_eq(feature, "battery") {
        !(p == Platform::OpenWrt)
    } else if crate::strutil::str_eq(feature, "gpu") {
        !(p == Platform::OpenWrt)
    } else if crate::strutil::str_eq(feature, "temperature") {
        true
    } else if crate::strutil::str_eq(feature, "network") {
        true
    } else {
        false
    }
}

} // verus!
