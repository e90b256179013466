use neofetch::color::BLACK_BG;
use neofetch::color::BLUE_BG;
use neofetch::color::BOLD;
use neofetch::color::BRIGHT_BLACK_BG;
use neofetch::color::BRIGHT_BLUE_BG;
use neofetch::color::BRIGHT_CYAN_BG;
use neofetch::color::BRIGHT_GREEN_BG;
use neofetch::color::BRIGHT_MAGENTA_BG;
use neofetch::color::BRIGHT_RED_BG;
use neofetch::color::BRIGHT_WHITE_BG;
use neofetch::color::BRIGHT_YELLOW_BG;
use neofetch::color::CYAN_BG;
use neofetch::color::GREEN_BG;
use neofetch::color::MAGENTA_BG;
use neofetch::color::RED;
use neofetch::color::RED_BG;
use neofetch::color::RESET;
use neofetch::color::WHITE_BG;
use neofetch::color::YELLOW_BG;
use neofetch::cpu::Cpu;
use neofetch::de::get_de;
use neofetch::disk::Disk;
use neofetch::error::NeofetchError;
use neofetch::join;
use neofetch::os::Distro;
use neofetch::os::OS;
use neofetch::packages::Packages;
use neofetch::uptime::Time;
use neofetch::Neofetch;

fn all_err() -> Neofetch {
    Neofetch {
        os: Err(NeofetchError::UnsupportedPlatform),
        user: Err(NeofetchError::UnsupportedPlatform),
        host: Err(NeofetchError::UnsupportedPlatform),
        hostname: Err(NeofetchError::UnsupportedPlatform),
        rom: Err(NeofetchError::UnsupportedPlatform),
        baseband: Err(NeofetchError::UnsupportedPlatform),
        kernel: Err(NeofetchError::UnsupportedPlatform),
        uptime: Err(NeofetchError::UnsupportedPlatform),
        packages: Err(NeofetchError::UnsupportedPlatform),
        shell: Err(NeofetchError::UnsupportedPlatform),
        display: Err(NeofetchError::UnsupportedPlatform),
        de: None,
        wm: Err(NeofetchError::UnsupportedPlatform),
        wm_theme: Err(NeofetchError::UnsupportedPlatform),
        terminal: Err(NeofetchError::UnsupportedPlatform),
        disk: Err(NeofetchError::UnsupportedPlatform),
        cpu: Err(NeofetchError::UnsupportedPlatform),
        gpu: Err(NeofetchError::UnsupportedPlatform),
        memory: Err(NeofetchError::UnsupportedPlatform),
        battery: Err(NeofetchError::UnsupportedPlatform),
        locale: Err(NeofetchError::UnsupportedPlatform),
        ip: Err(NeofetchError::UnsupportedPlatform),
        temperature: Err(NeofetchError::UnsupportedPlatform),
        network: Err(NeofetchError::UnsupportedPlatform),
    }
}

fn header_and_swatches() -> String {
    let mut info = String::new();
    info.push_str(&format!(
        "{RESET}{RED}{BOLD}{RESET}@{RED}{BOLD}{RESET}\n-------\n"
    ));
    info.push('\n');
    for c in [
        BLACK_BG, RED_BG, GREEN_BG, YELLOW_BG, BLUE_BG, MAGENTA_BG, CYAN_BG, WHITE_BG,
    ] {
        info.push_str(c);
        info.push_str("   ");
    }
    info.push_str(RESET);
    info.push('\n');
    for c in [
        BRIGHT_BLACK_BG,
        BRIGHT_RED_BG,
        BRIGHT_GREEN_BG,
        BRIGHT_YELLOW_BG,
        BRIGHT_BLUE_BG,
        BRIGHT_MAGENTA_BG,
        BRIGHT_CYAN_BG,
        BRIGHT_WHITE_BG,
    ] {
        info.push_str(c);
        info.push_str("   ");
    }
    info.push_str(RESET);
    info.push('\n');
    info
}

// The aggregation never fails: a snapshot in which every probe failed still
// renders, to exactly the header and the color swatches.
#[test]
fn test_render_all_errors() {
    let snap = all_err();
    let out = snap.render();
    let expected = join(String::new(), header_and_swatches());
    assert_eq!(out, expected);
}

// Suppression: failed probes, a zero uptime, an all-zero package summary, a
// disk without capacity and an unknown speed leave no trace in the output.
#[test]
fn test_render_suppression() {
    let mut snap = all_err();
    snap.uptime = Ok(Time(0));
    snap.packages = Ok(Packages { snap: 0, dpkg: 0, pacman: 0, scoop: 0 });
    snap.disk = Ok(vec![Disk { name: "/".to_string(), total: 0, used: 0 }]);
    snap.cpu = Ok(Cpu { name: "Example Core".to_string(), cores: 0, speed: 0 });
    let out = snap.render();
    assert!(!out.contains("Uptime: "));
    assert!(!out.contains("Packages: "));
    assert!(!out.contains("Disk("));
    assert!(out.contains("CPU: "));
    assert!(out.contains("Example Core"));
    assert!(!out.contains("GHz"));
}

#[test]
fn test_render_present_facts() {
    let mut snap = all_err();
    snap.user = Ok("user1".to_string());
    snap.hostname = Ok("box".to_string());
    snap.kernel = Ok("6.1.0".to_string());
    snap.uptime = Ok(Time(45));
    snap.battery = Ok(88);
    let out = snap.render();
    assert!(out.contains("user1"));
    assert!(out.contains("@"));
    assert!(out.contains("box"));
    assert!(out.contains("Kernel: "));
    assert!(out.contains("6.1.0"));
    assert!(out.contains("Uptime: "));
    assert!(out.contains("45 secs"));
    assert!(out.contains("Battery: "));
    assert!(out.contains("88"));
}

fn win11() -> OS {
    OS {
        distro: Distro::Windows11,
        name: "Windows 11 Pro".to_string(),
        arch: "x86_64".to_string(),
    }
}

// The desktop environment depends on the resolved operating system: a name
// holding Windows 11 yields Fluent, and a failed resolution yields nothing.
#[test]
fn test_de_dependency() {
    assert_eq!(get_de(&win11(), false), Some("Fluent".to_string()));
    let os8 = OS {
        distro: Distro::Windows,
        name: "Windows 8.1".to_string(),
        arch: "x86_64".to_string(),
    };
    assert_eq!(get_de(&os8, false), Some("Metro".to_string()));
    let linux = OS {
        distro: Distro::Ubuntu,
        name: "Ubuntu Linux".to_string(),
        arch: "x86_64".to_string(),
    };
    assert_eq!(get_de(&linux, true), Some("GNOME".to_string()));
    assert_eq!(get_de(&linux, false), None);
}

fn assemble_with_os(os: Result<OS, NeofetchError>, gnome: bool) -> Neofetch {
    let e = || NeofetchError::UnsupportedPlatform;
    Neofetch::assemble(
        os,
        Err(e()),
        Err(e()),
        Err(e()),
        Err(e()),
        Err(e()),
        Err(e()),
        Err(e()),
        Err(e()),
        Err(e()),
        Err(e()),
        Err(e()),
        Err(e()),
        Err(e()),
        Err(e()),
        Err(e()),
        Err(e()),
        Err(e()),
        Err(e()),
        Err(e()),
        Err(e()),
        Err(e()),
        Err(e()),
        gnome,
    )
}

#[test]
fn test_assemble_derives_de() {
    let snap = assemble_with_os(Ok(win11()), false);
    assert_eq!(snap.de, Some("Fluent".to_string()));
    let none = assemble_with_os(Err(NeofetchError::UnsupportedPlatform), true);
    assert_eq!(none.de, None);
    let out = none.render();
    assert!(!out.contains("DE: "));
}

#[test]
fn test_render_uses_art() {
    let mut snap = all_err();
    snap.os = Ok(win11());
    let out = snap.render();
    assert!(out.contains("Windows 11 Pro x86_64"));
    let icon = Distro::Windows11.icon();
    let first_art_line = icon.lines().next().unwrap();
    assert!(out.contains(first_art_line));
}

#[test]
fn test_icons_nonempty() {
    assert!(Distro::Ubuntu.icon().len() > 0);
    assert!(Distro::Arch.icon().len() > 0);
    assert!(Distro::Darwin.icon().len() > 0);
    assert_eq!(Distro::Unknown.icon(), "");
    assert_eq!(Distro::Ubuntu.name(), "Ubuntu");
    assert_eq!(Distro::Windows11.name(), "Windows11");
}
