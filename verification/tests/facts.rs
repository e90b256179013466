use neofetch::cpu::Cpu;
use neofetch::disk::disk_percent;
use neofetch::disk::Disk;
use neofetch::display::Display;
use neofetch::gpu::Gpu;
use neofetch::memory::format_memory;
use neofetch::memory::format_memory_percent;
use neofetch::network::filter_active;
use neofetch::network::NetworkInfo;
use neofetch::packages::count_dpkg_packages;
use neofetch::packages::Packages;
use neofetch::share::detect_cpu;
use neofetch::share::detect_locale;
use neofetch::share::get_file_name;
use neofetch::size::human_size;
use neofetch::temperature::summarize_sensors;
use neofetch::temperature::TempSensor;
use neofetch::terminal::term_step;
use neofetch::terminal::Terminal;
use neofetch::terminal::TermStep;
use neofetch::uptime::Time;
use neofetch::utils::platform::feature_available;
use neofetch::utils::platform::Platform;

// The uptime tiers on their boundary values; the day tier drops the
// seconds, and a count of zero or one stays singular.
#[test]
fn test_uptime_boundaries() {
    assert_eq!(Time(45).render(), "45 secs");
    assert_eq!(Time(90).render(), "1 min 30 secs");
    assert_eq!(Time(3661).render(), "1 hour, 1 min, 1 sec");
    assert_eq!(Time(90000).render(), "1 day, 1 hour, 0 min");
    assert_eq!(Time(1).render(), "1 sec");
    assert_eq!(Time(0).render(), "0 sec");
    assert_eq!(Time(59).render(), "59 secs");
    assert_eq!(Time(60).render(), "1 min 0 sec");
    assert_eq!(Time(86399).render(), "23 hours, 59 mins, 59 secs");
    assert_eq!(Time(86400).render(), "1 day, 0 hour, 0 min");
}

#[test]
fn test_human_size_values() {
    assert_eq!(human_size(0), "0 B");
    assert_eq!(human_size(1), "1 B");
    assert_eq!(human_size(999), "999 B");
    assert_eq!(human_size(1024), "1 KiB");
    assert_eq!(human_size(1536), "1.5 KiB");
    assert_eq!(human_size(1048576), "1 MiB");
    assert_eq!(human_size(1073741824), "1 GiB");
}

// The same values that the byte-formatting crate renders, on inputs its
// float arithmetic measures exactly.
#[test]
fn test_human_size_matches_crate() {
    for v in [0u32, 1, 999, 1024, 1536, 2048, 1048576, 123, 10240] {
        assert_eq!(human_size(v as u64), human_bytes::human_bytes(v));
    }
}

// The percentage guard: a disk with no reported capacity divides by
// nothing and renders a zero percentage.
#[test]
fn test_disk_percent_guard() {
    assert_eq!(disk_percent(0, 0), 0);
    assert_eq!(disk_percent(1, 2), 50);
    assert_eq!(disk_percent(1, 3), 33);
    assert_eq!(disk_percent(2, 3), 67);
    assert_eq!(disk_percent(100, 100), 100);
}

#[test]
fn test_disk_render() {
    let d = Disk { name: "/".to_string(), total: 1024, used: 512 };
    assert_eq!(d.render(), "512 B / 1 KiB (50%)");
}

#[test]
fn test_cpu_render() {
    let c = Cpu { name: "Example Core".to_string(), cores: 8, speed: 2400 };
    assert_eq!(c.render(), "Example Core (8) 2.40 GHz");
    let no_speed = Cpu { name: "Example Core".to_string(), cores: 8, speed: 0 };
    assert_eq!(no_speed.render(), "Example Core (8)");
    let bare = Cpu { name: "Example Core".to_string(), cores: 0, speed: 0 };
    assert_eq!(bare.render(), "Example Core");
    let rounded = Cpu { name: "X".to_string(), cores: 0, speed: 2445 };
    assert_eq!(rounded.render(), "X 2.45 GHz");
}

#[test]
fn test_gpu_render() {
    let g = Gpu { name: "Vendor".to_string(), version: "Driver 1.2".to_string(), ram: 2048 };
    assert_eq!(g.render(), "Vendor (2 KiB) @ (Driver 1.2)");
    let bare = Gpu { name: "Vendor".to_string(), version: String::new(), ram: 0 };
    assert_eq!(bare.render(), "Vendor");
}

#[test]
fn test_memory_lines() {
    assert_eq!(format_memory(1024, 512), "512 KiB / 1 MiB");
    assert_eq!(format_memory_percent(1024, 512), "512 KiB / 1 MiB (50%)");
    assert_eq!(format_memory(0, 0), "0 B / 0 B");
    assert_eq!(format_memory_percent(0, 0), "0 B / 0 B (0%)");
}

#[test]
fn test_packages_render() {
    let p = Packages { snap: 2, dpkg: 100, pacman: 0, scoop: 1 };
    assert_eq!(p.render(), "100 (dpkg), 2 (snap), 1 (scoop)");
    let none = Packages { snap: 0, dpkg: 0, pacman: 0, scoop: 0 };
    assert_eq!(none.render(), "");
}

#[test]
fn test_count_dpkg_packages() {
    let status = "Package: a\nStatus: ok\n\nPackage: b\nVersion: 1\n\nNot-a-package: c";
    assert_eq!(count_dpkg_packages(status), 2);
    assert_eq!(count_dpkg_packages(""), 0);
}

#[test]
fn test_terminal_render() {
    let t = Terminal { name: "alacritty".to_string(), version: Some("0.13".to_string()) };
    assert_eq!(t.render(), "alacritty (0.13)");
    let bare = Terminal { name: "xterm".to_string(), version: None };
    assert_eq!(bare.render(), "xterm");
}

#[test]
fn test_term_step() {
    assert_eq!(
        term_step("gnome-terminal-"),
        TermStep::Found("gnome-terminal".to_string())
    );
    assert_eq!(term_step("nvim"), TermStep::Found("Neovim Terminal".to_string()));
    assert_eq!(term_step("tmux"), TermStep::Stop);
    assert_eq!(term_step("systemd"), TermStep::Stop);
    assert_eq!(term_step("bash"), TermStep::Climb);
}

#[test]
fn test_display_render() {
    let d = Display {
        name: Some("eDP-1".to_string()),
        friendly_name: None,
        refresh_rate: Some(60),
        external: Some(false),
        resolution: Some((1920, 1080)),
        scale_resolution: Some((960, 540)),
        rotation: Some(0),
        primary: Some(true),
    };
    assert_eq!(d.render(), "1920x1080 @ 60Hz (as 960x540) *");
    let ext = Display {
        name: None,
        friendly_name: None,
        refresh_rate: None,
        external: Some(true),
        resolution: Some((800, 600)),
        scale_resolution: None,
        rotation: None,
        primary: None,
    };
    assert_eq!(ext.render(), "800x600 [External]");
}

#[test]
fn test_network_render_and_filter() {
    let up = NetworkInfo {
        interface_name: "eth0".to_string(),
        ipv4_address: Some("192.168.1.2".to_string()),
        ipv6_address: None,
        mac_address: Some("aa:bb:cc:dd:ee:ff".to_string()),
        is_up: true,
    };
    assert_eq!(up.render(), "eth0 (UP) IPv4: 192.168.1.2 MAC: aa:bb:cc:dd:ee:ff");
    let down = NetworkInfo {
        interface_name: "wlan0".to_string(),
        ipv4_address: None,
        ipv6_address: None,
        mac_address: None,
        is_up: false,
    };
    assert_eq!(down.render(), "wlan0 (DOWN)");
    let active = filter_active(&vec![down, up]);
    assert_eq!(active.len(), 1);
    assert_eq!(active[0].interface_name, "eth0");
}

#[test]
fn test_temp_sensor_render() {
    let s = TempSensor { label: "CPU".to_string(), milli_celsius: 45678 };
    assert_eq!(s.render(), "CPU: 45.7\u{b0}C");
    let z = TempSensor { label: "zone".to_string(), milli_celsius: 0 };
    assert_eq!(z.render(), "zone: 0.0\u{b0}C");
}

#[test]
fn test_summarize_sensors() {
    let readings = vec![
        ("cpu-thermal".to_string(), 40000i64),
        ("CPU cluster".to_string(), 50000),
        ("gpu0".to_string(), 35000),
        ("battery".to_string(), 30000),
        ("modem".to_string(), 60000),
        ("cpu-broken".to_string(), 999000),
    ];
    let sensors = summarize_sensors(&readings);
    assert_eq!(sensors.len(), 3);
    assert_eq!(sensors[0].label, "CPU (avg of 2 sensors)");
    assert_eq!(sensors[0].milli_celsius, 45000);
    assert_eq!(sensors[1].label, "GPU (avg of 1 sensors)");
    assert_eq!(sensors[1].milli_celsius, 35000);
    assert_eq!(sensors[2].label, "Battery (avg of 1 sensors)");
    assert_eq!(sensors[2].milli_celsius, 30000);
}

#[test]
fn test_detect_cpu_table() {
    assert_eq!(
        detect_cpu("SM8750"),
        Some("Qualcomm Snapdragon 8 Elite [SM8750]".to_string())
    );
    assert_eq!(
        detect_cpu("MT6991"),
        Some("MediaTek Dimensity 9400 [MT6991]".to_string())
    );
    assert_eq!(detect_cpu("unknown-chip"), None);
}

#[test]
fn test_detect_locale_table() {
    assert_eq!(detect_locale("0409"), Some("en-US".to_string()));
    assert_eq!(detect_locale("0407"), Some("de-DE".to_string()));
    assert_eq!(detect_locale("FFFF"), None);
}

#[test]
fn test_get_file_name_variants() {
    assert_eq!(
        get_file_name("C:\\themes\\aero.theme"),
        Some("aero".to_string())
    );
    assert_eq!(get_file_name("/usr/bin/zsh"), Some("zsh".to_string()));
}

#[test]
fn test_platform_names_and_families() {
    assert_eq!(Platform::Linux.name(), "Linux");
    assert_eq!(Platform::MacOS.name(), "macOS");
    assert!(Platform::Linux.is_unix());
    assert!(Platform::Linux.is_linux_based());
    assert!(!Platform::Linux.is_bsd());
    assert!(Platform::Windows.is_windows());
    assert!(!Platform::Windows.is_unix());
    assert!(Platform::FreeBSD.is_bsd());
}

#[test]
fn test_feature_availability_table() {
    assert!(feature_available(Platform::Windows, "wmi"));
    assert!(!feature_available(Platform::Linux, "wmi"));
    assert!(feature_available(Platform::Linux, "proc"));
    assert!(feature_available(Platform::MacOS, "sysctl"));
    assert!(!feature_available(Platform::Android, "display_info"));
    assert!(feature_available(Platform::Linux, "network"));
    assert!(!feature_available(Platform::Linux, "no-such-feature"));
}

#[test]
fn test_kelvin_tenths_to_milli() {
    assert_eq!(neofetch::temperature::kelvin_tenths_to_milli(3182), 45050);
    assert_eq!(neofetch::temperature::kelvin_tenths_to_milli(2732), 50);
}
