//! The operating-system fact: which distribution is running, under what
//! name and architecture.

use vstd::prelude::*;

use crate::strutil::contains_seq;
use crate::strutil::lines_seq;
use crate::strutil::split_lines;
use crate::strutil::starts_with_seq;
use crate::strutil::str_contains;
use crate::strutil::str_starts_with;
use crate::strutil::str_trim_char;
use crate::strutil::trim_char_seq;

verus! {

/// Every distribution the art table knows.
#[derive(Debug, Clone, Copy, PartialEq, Eq, Structural)]
pub enum Distro {
    Aix,
    AlmaLinux,
    AlpineSmall,
    Alpine,
    Alter,
    Amazon,
    Anarchy,
    AndroidSmall,
    Android,
    InstantOs,
    Antergos,
    AntiX,
    AoscOs,
    Apricity,
    Archcraft,
    ArcolinuxSmall,
    ArcoLinux,
    ArchSmall,
    ArchOld,
    ArchBox,
    ArcHlabs,
    ArchStrike,
    XFerience,
    ArchMerge,
    Arch,
    ArtixSmall,
    Artix,
    Arya,
    Bedrock,
    Bitrig,
    BlackArch,
    Blag,
    BlankOn,
    BlueLight,
    Bonsai,
    BunsenLabs,
    Calculate,
    Carbs,
    CblMariner,
    CelOs,
    CentosSmall,
    CentOs,
    Chakra,
    ChaletOs,
    Chapeau,
    Chrom,
    CleanjaroSmall,
    Cleanjaro,
    ClearOs,
    ClearLinuxOs,
    Clover,
    Condres,
    ContainerLinuxByCoreOs,
    CruxSmall,
    Crux,
    CrystalLinux,
    Cucumber,
    Dahlia,
    DebianSmall,
    Debian,
    Deepin,
    DesaOs,
    Devuan,
    DracOs,
    Itc,
    DragonflyOld,
    DragonflySmall,
    DragonFly,
    Drauger,
    ElementarySmall,
    Elementary,
    EndeavourOs,
    Endless,
    EuroLinux,
    Exherbo,
    FedoraSmall,
    FedoraOld,
    Fedora,
    Feren,
    FreebsdSmall,
    FreeMiNt,
    Frugalware,
    Funtoo,
    GalliumOs,
    Garuda,
    GentooSmall,
    Gentoo,
    Pentoo,
    Glaucus,
    GNewSense,
    Gnome,
    Gnu,
    GoboLinux,
    Grombyang,
    GuixSmall,
    Guix,
    HaikuSmall,
    Haiku,
    Huayra,
    HydroOs,
    HyperbolaSmall,
    Hyperbola,
    Iglunix,
    Januslinux,
    Kaisen,
    Kali,
    KaOs,
    Kde,
    Kibojoe,
    Kogaion,
    Korora,
    KsLinux,
    Kubuntu,
    Lede,
    LaxerOs,
    LibreElec,
    Linux,
    LinuxliteSmall,
    LinuxLite,
    Lmde,
    Lubuntu,
    Lunar,
    Mac,
    MageiaSmall,
    Mageia,
    MagpieOs,
    Mandriva,
    ManjaroSmall,
    Manjaro,
    Maui,
    Mer,
    Minix,
    LinuxmintSmall,
    LinuxMintOld,
    LinuxMint,
    LiveRaizo,
    MxSmall,
    Mx,
    Namib,
    Neptune,
    NetbsdSmall,
    NetBsd,
    Netrunner,
    Nitrux,
    NixosSmall,
    NixosOld,
    NixOs,
    Nurunner,
    NuTyX,
    ObRevenge,
    OpenbsdSmall,
    OpenBsd,
    OpenEuler,
    OpenIndiana,
    Openmamba,
    OpenMandriva,
    OpenStage,
    OpenWrt,
    OpenSourceMediaCenter,
    Oracle,
    OsElbrus,
    PacBsd,
    ParabolaSmall,
    Parabola,
    Pardus,
    Parrot,
    Parsix,
    Pcbsd,
    PcLinuxOs,
    Pengwin,
    Peppermint,
    PoposSmall,
    PopOs,
    Porteus,
    PostmarketosSmall,
    PostMarketOs,
    PuffOs,
    Puppy,
    PureosSmall,
    PureOs,
    Qubes,
    Qubyt,
    Quibian,
    Radix,
    RaspbianSmall,
    Raspbian,
    RebornOs,
    RedStar,
    Redcore,
    RedhatOld,
    Redhat,
    RefractedDevuan,
    Regata,
    Regolith,
    RockySmall,
    Rosa,
    Sabotage,
    Sabayon,
    Sailfish,
    SalentOs,
    Scientific,
    Septor,
    Serene,
    SharkLinux,
    SlackwareSmall,
    Slackware,
    SliTaz,
    SmartOs,
    Solus,
    SourceMage,
    Sparky,
    Star,
    SteamOs,
    SunosSmall,
    OpenSuseLeap,
    T2,
    OpenSuseTumbleweed,
    OpensuseSmall,
    OpenSuse,
    SwagArch,
    Tails,
    Trisquel,
    UbuntuCinnamon,
    UbuntuBudgie,
    UbuntuGnome,
    UbuntuMate,
    UbuntuOld,
    UbuntuStudio,
    UbuntuSmall,
    Ubuntu,
    Univention,
    Venom,
    VoidSmall,
    LangitKetujuh,
    Semc,
    Obarun,
    Windows11,
    Windows10,
    Windows,
    Xubuntu,
    Zorin,
    Darwin,
    ProfelisSambaBox,
    Unknown,
}

impl Distro {
    /// The distribution's bare name.
    pub fn name(&self) -> &'static str {
        match self {
            Distro::Aix => "Aix",
            Distro::AlmaLinux => "AlmaLinux",
            Distro::AlpineSmall => "AlpineSmall",
            Distro::Alpine => "Alpine",
            Distro::Alter => "Alter",
            Distro::Amazon => "Amazon",
            Distro::Anarchy => "Anarchy",
            Distro::AndroidSmall => "AndroidSmall",
            Distro::Android => "Android",
            Distro::InstantOs => "InstantOs",
            Distro::Antergos => "Antergos",
            Distro::AntiX => "AntiX",
            Distro::AoscOs => "AoscOs",
            Distro::Apricity => "Apricity",
            Distro::Archcraft => "Archcraft",
            Distro::ArcolinuxSmall => "ArcolinuxSmall",
            Distro::ArcoLinux => "ArcoLinux",
            Distro::ArchSmall => "ArchSmall",
            Distro::ArchOld => "ArchOld",
            Distro::ArchBox => "ArchBox",
            Distro::ArcHlabs => "ArcHlabs",
            Distro::ArchStrike => "ArchStrike",
            Distro::XFerience => "XFerience",
            Distro::ArchMerge => "ArchMerge",
            Distro::Arch => "Arch",
            Distro::ArtixSmall => "ArtixSmall",
            Distro::Artix => "Artix",
            Distro::Arya => "Arya",
            Distro::Bedrock => "Bedrock",
            Distro::Bitrig => "Bitrig",
            Distro::BlackArch => "BlackArch",
            Distro::Blag => "Blag",
            Distro::BlankOn => "BlankOn",
            Distro::BlueLight => "BlueLight",
            Distro::Bonsai => "Bonsai",
            Distro::BunsenLabs => "BunsenLabs",
            Distro::Calculate => "Calculate",
            Distro::Carbs => "Carbs",
            Distro::CblMariner => "CblMariner",
            Distro::CelOs => "CelOs",
            Distro::CentosSmall => "CentosSmall",
            Distro::CentOs => "CentOs",
            Distro::Chakra => "Chakra",
            Distro::ChaletOs => "ChaletOs",
            Distro::Chapeau => "Chapeau",
            Distro::Chrom => "Chrom",
            Distro::CleanjaroSmall => "CleanjaroSmall",
            Distro::Cleanjaro => "Cleanjaro",
            Distro::ClearOs => "ClearOs",
            Distro::ClearLinuxOs => "ClearLinuxOs",
            Distro::Clover => "Clover",
            Distro::Condres => "Condres",
            Distro::ContainerLinuxByCoreOs => "ContainerLinuxByCoreOs",
            Distro::CruxSmall => "CruxSmall",
            Distro::Crux => "Crux",
            Distro::CrystalLinux => "CrystalLinux",
            Distro::Cucumber => "Cucumber",
            Distro::Dahlia => "Dahlia",
            Distro::DebianSmall => "DebianSmall",
            Distro::Debian => "Debian",
            Distro::Deepin => "Deepin",
            Distro::DesaOs => "DesaOs",
            Distro::Devuan => "Devuan",
            Distro::DracOs => "DracOs",
            Distro::Itc => "Itc",
            Distro::DragonflyOld => "DragonflyOld",
            Distro::DragonflySmall => "DragonflySmall",
            Distro::DragonFly => "DragonFly",
            Distro::Drauger => "Drauger",
            Distro::ElementarySmall => "ElementarySmall",
            Distro::Elementary => "Elementary",
            Distro::EndeavourOs => "EndeavourOs",
            Distro::Endless => "Endless",
            Distro::EuroLinux => "EuroLinux",
            Distro::Exherbo => "Exherbo",
            Distro::FedoraSmall => "FedoraSmall",
            Distro::FedoraOld => "FedoraOld",
            Distro::Fedora => "Fedora",
            Distro::Feren => "Feren",
            Distro::FreebsdSmall => "FreebsdSmall",
            Distro::FreeMiNt => "FreeMiNt",
            Distro::Frugalware => "Frugalware",
            Distro::Funtoo => "Funtoo",
            Distro::GalliumOs => "GalliumOs",
            Distro::Garuda => "Garuda",
            Distro::GentooSmall => "GentooSmall",
            Distro::Gentoo => "Gentoo",
            Distro::Pentoo => "Pentoo",
            Distro::Glaucus => "Glaucus",
            Distro::GNewSense => "GNewSense",
            Distro::Gnome => "Gnome",
            Distro::Gnu => "Gnu",
            Distro::GoboLinux => "GoboLinux",
            Distro::Grombyang => "Grombyang",
            Distro::GuixSmall => "GuixSmall",
            Distro::Guix => "Guix",
            Distro::HaikuSmall => "HaikuSmall",
            Distro::Haiku => "Haiku",
            Distro::Huayra => "Huayra",
            Distro::HydroOs => "HydroOs",
            Distro::HyperbolaSmall => "HyperbolaSmall",
            Distro::Hyperbola => "Hyperbola",
            Distro::Iglunix => "Iglunix",
            Distro::Januslinux => "Januslinux",
            Distro::Kaisen => "Kaisen",
            Distro::Kali => "Kali",
            Distro::KaOs => "KaOs",
            Distro::Kde => "Kde",
            Distro::Kibojoe => "Kibojoe",
            Distro::Kogaion => "Kogaion",
            Distro::Korora => "Korora",
            Distro::KsLinux => "KsLinux",
            Distro::Kubuntu => "Kubuntu",
            Distro::Lede => "Lede",
            Distro::LaxerOs => "LaxerOs",
            Distro::LibreElec => "LibreElec",
            Distro::Linux => "Linux",
            Distro::LinuxliteSmall => "LinuxliteSmall",
            Distro::LinuxLite => "LinuxLite",
            Distro::Lmde => "Lmde",
            Distro::Lubuntu => "Lubuntu",
            Distro::Lunar => "Lunar",
            Distro::Mac => "Mac",
            Distro::MageiaSmall => "MageiaSmall",
            Distro::Mageia => "Mageia",
            Distro::MagpieOs => "MagpieOs",
            Distro::Mandriva => "Mandriva",
            Distro::ManjaroSmall => "ManjaroSmall",
            Distro::Manjaro => "Manjaro",
            Distro::Maui => "Maui",
            Distro::Mer => "Mer",
            Distro::Minix => "Minix",
            Distro::LinuxmintSmall => "LinuxmintSmall",
            Distro::LinuxMintOld => "LinuxMintOld",
            Distro::LinuxMint => "LinuxMint",
            Distro::LiveRaizo => "LiveRaizo",
            Distro::MxSmall => "MxSmall",
            Distro::Mx => "Mx",
            Distro::Namib => "Namib",
            Distro::Neptune => "Neptune",
            Distro::NetbsdSmall => "NetbsdSmall",
            Distro::NetBsd => "NetBsd",
            Distro::Netrunner => "Netrunner",
            Distro::Nitrux => "Nitrux",
            Distro::NixosSmall => "NixosSmall",
            Distro::NixosOld => "NixosOld",
            Distro::NixOs => "NixOs",
            Distro::Nurunner => "Nurunner",
            Distro::NuTyX => "NuTyX",
            Distro::ObRevenge => "ObRevenge",
            Distro::OpenbsdSmall => "OpenbsdSmall",
            Distro::OpenBsd => "OpenBsd",
            Distro::OpenEuler => "OpenEuler",
            Distro::OpenIndiana => "OpenIndiana",
            Distro::Openmamba => "Openmamba",
            Distro::OpenMandriva => "OpenMandriva",
            Distro::OpenStage => "OpenStage",
            Distro::OpenWrt => "OpenWrt",
            Distro::OpenSourceMediaCenter => "OpenSourceMediaCenter",
            Distro::Oracle => "Oracle",
            Distro::OsElbrus => "OsElbrus",
            Distro::PacBsd => "PacBsd",
            Distro::ParabolaSmall => "ParabolaSmall",
            Distro::Parabola => "Parabola",
            Distro::Pardus => "Pardus",
            Distro::Parrot => "Parrot",
            Distro::Parsix => "Parsix",
            Distro::Pcbsd => "Pcbsd",
            Distro::PcLinuxOs => "PcLinuxOs",
            Distro::Pengwin => "Pengwin",
            Distro::Peppermint => "Peppermint",
            Distro::PoposSmall => "PoposSmall",
            Distro::PopOs => "PopOs",
            Distro::Porteus => "Porteus",
            Distro::PostmarketosSmall => "PostmarketosSmall",
            Distro::PostMarketOs => "PostMarketOs",
            Distro::PuffOs => "PuffOs",
            Distro::Puppy => "Puppy",
            Distro::PureosSmall => "PureosSmall",
            Distro::PureOs => "PureOs",
            Distro::Qubes => "Qubes",
            Distro::Qubyt => "Qubyt",
            Distro::Quibian => "Quibian",
            Distro::Radix => "Radix",
            Distro::RaspbianSmall => "RaspbianSmall",
            Distro::Raspbian => "Raspbian",
            Distro::RebornOs => "RebornOs",
            Distro::RedStar => "RedStar",
            Distro::Redcore => "Redcore",
            Distro::RedhatOld => "RedhatOld",
            Distro::Redhat => "Redhat",
            Distro::RefractedDevuan => "RefractedDevuan",
            Distro::Regata => "Regata",
            Distro::Regolith => "Regolith",
            Distro::RockySmall => "RockySmall",
            Distro::Rosa => "Rosa",
            Distro::Sabotage => "Sabotage",
            Distro::Sabayon => "Sabayon",
            Distro::Sailfish => "Sailfish",
            Distro::SalentOs => "SalentOs",
            Distro::Scientific => "Scientific",
            Distro::Septor => "Septor",
            Distro::Serene => "Serene",
            Distro::SharkLinux => "SharkLinux",
            Distro::SlackwareSmall => "SlackwareSmall",
            Distro::Slackware => "Slackware",
            Distro::SliTaz => "SliTaz",
            Distro::SmartOs => "SmartOs",
            Distro::Solus => "Solus",
            Distro::SourceMage => "SourceMage",
            Distro::Sparky => "Sparky",
            Distro::Star => "Star",
            Distro::SteamOs => "SteamOs",
            Distro::SunosSmall => "SunosSmall",
            Distro::OpenSuseLeap => "OpenSuseLeap",
            Distro::T2 => "T2",
            Distro::OpenSuseTumbleweed => "OpenSuseTumbleweed",
            Distro::OpensuseSmall => "OpensuseSmall",
            Distro::OpenSuse => "OpenSuse",
            Distro::SwagArch => "SwagArch",
            Distro::Tails => "Tails",
            Distro::Trisquel => "Trisquel",
            Distro::UbuntuCinnamon => "UbuntuCinnamon",
            Distro::UbuntuBudgie => "UbuntuBudgie",
            Distro::UbuntuGnome => "UbuntuGnome",
            Distro::UbuntuMate => "UbuntuMate",
            Distro::UbuntuOld => "UbuntuOld",
            Distro::UbuntuStudio => "UbuntuStudio",
            Distro::UbuntuSmall => "UbuntuSmall",
            Distro::Ubuntu => "Ubuntu",
            Distro::Univention => "Univention",
            Distro::Venom => "Venom",
            Distro::VoidSmall => "VoidSmall",
            Distro::LangitKetujuh => "LangitKetujuh",
            Distro::Semc => "Semc",
            Distro::Obarun => "Obarun",
            Distro::Windows11 => "Windows11",
            Distro::Windows10 => "Windows10",
            Distro::Windows => "Windows",
            Distro::Xubuntu => "Xubuntu",
            Distro::Zorin => "Zorin",
            Distro::Darwin => "Darwin",
            Distro::ProfelisSambaBox => "ProfelisSambaBox",
            Distro::Unknown => "Unknown",
        }
    }
}

/// The resolved operating-system fact: the distribution, its full name, and
/// the machine architecture.
#[derive(Debug, Clone)]
pub struct OS {
    pub distro: Distro,
    pub name: String,
    pub arch: String,
}

impl OS {
    /// The line the formatter prints for this fact: name, space, architecture.
    pub fn render(&self) -> (r: String)
        ensures
            r@ == self.name@ + " "@ + self.arch@,
    {
        let mut r: String = String::new();
        r.append(self.name.as_str());
        r.append(" ");
        r.append(self.arch.as_str());
        proof {
            assert(r@ =~= self.name@ + " "@ + self.arch@);
        }
        r
    }
}

/// Which Windows line a caption names.
pub open spec fn spec_windows_distro(s: Seq<char>) -> Distro {
    if starts_with_seq(s, "Windows 11"@) {
        Distro::Windows11
    } else if starts_with_seq(s, "Windows 10"@) {
        Distro::Windows10
    } else {
        Distro::Windows
    }
}

/// Picks the Windows variant that a product caption names.
pub fn classify_windows_caption(name: &str) -> (d: Distro)
    ensures
        d == spec_windows_distro(name@),
{
    if str_starts_with(name, "Windows 11") {
        Distro::Windows11
    } else if str_starts_with(name, "Windows 10") {
        Distro::Windows10
    } else {
        Distro::Windows
    }
}

/// Which distribution a pretty name from an os-release file names.
pub open spec fn spec_linux_distro(s: Seq<char>) -> Distro {
    if contains_seq(s, "Ubuntu"@) {
        Distro::Ubuntu
    } else if contains_seq(s, "Debian"@) {
        Distro::Debian
    } else if contains_seq(s, "Fedora"@) {
        Distro::Fedora
    } else if contains_seq(s, "Arch"@) {
        Distro::Arch
    } else if contains_seq(s, "Manjaro"@) {
        Distro::Manjaro
    } else {
        Distro::Linux
    }
}

/// Picks the distribution that a pretty name from an os-release file names.
pub fn classify_linux_name(name: &str) -> (d: Distro)
    ensures
        d == spec_linux_distro(name@),
{
    if str_contains(name, "Ubuntu") {
        Distro::Ubuntu
    } else if str_contains(name, "Debian") {
        Distro::Debian
    } else if str_contains(name, "Fedora") {
        Distro::Fedora
    } else if str_contains(name, "Arch") {
        Distro::Arch
    } else if str_contains(name, "Manjaro") {
        Distro::Manjaro
    } else {
        Distro::Linux
    }
}

/// The architecture name for a processor architecture code.
pub open spec fn spec_arch_name(code: u32) -> Seq<char> {
    if code == 0 {
        "x86"@
    } else if code == 9 {
        "x86_64"@
    } else if code == 12 {
        "ARM"@
    } else if code == 5 {
        "ARM64"@
    } else {
        "Unknown"@
    }
}

/// Names a processor architecture code.
pub fn arch_name(code: u32) -> (r: &'static str)
    ensures
        r@ == spec_arch_name(code),
{
    if code == 0 {
        "x86"
    } else if code == 9 {
        "x86_64"
    } else if code == 12 {
        "ARM"
    } else if code == 5 {
        "ARM64"
    } else {
        "Unknown"
    }
}

/// The pretty name that an os-release file gives: the remainder of its first
/// `PRETTY_NAME=` line, without surrounding quotes.
pub open spec fn spec_pretty_name(ls: Seq<Seq<char>>, i: int) -> Option<Seq<char>>
    decreases ls.len() - i,
{
    if i < 0 || i >= ls.len() {
        None
    } else if starts_with_seq(ls[i], "PRETTY_NAME="@) {
        Some(trim_char_seq(ls[i].skip("PRETTY_NAME="@.len() as int), '"'))
    } else {
        spec_pretty_name(ls, i + 1)
    }
}

/// Finds the pretty name in the content of an os-release file.
pub fn pretty_name_from_os_release(content: &str) -> (r: Option<String>)
    ensures
        match r {
            Some(v) => spec_pretty_name(lines_seq(content@), 0) == Some(v@),
            None => spec_pretty_name(lines_seq(content@), 0) is None,
        },
{
    let lines: Vec<String> = split_lines(content);
    let ghost ls = lines_seq(content@);
    let n: usize = lines.len();
    let mut i: usize = 0;
    proof {
        reveal_strlit("PRETTY_NAME=");
    }
    while i < n
        invariant
            ls == lines_seq(content@),
            lines@.map_values(|t: String| t@) == ls,
            n == ls.len(),
            i <= n,
            "PRETTY_NAME="@.len() == 12,
            spec_pretty_name(ls, 0) == spec_pretty_name(ls, i as int),
        decreases n - i,
    {
        let line: &str = lines[i].as_str();
        if str_starts_with(line, "PRETTY_NAME=") {
            let len: usize = line.unicode_len();
            let rest: &str = line.substring_char(12, len);
            let trimmed: &str = str_trim_char(rest, '"');
            proof {
                assert(line@.skip(12) =~= line@.subrange(12, len as int));
            }
            return Some(trimmed.to_owned());
        }
        i = i + 1;
    }
    None
}

} // verus!
