use neofetch::cpu::Cpu;
use neofetch::gpu::parse_pci_ids;
use neofetch::gpu::gpus_from_pci;
use neofetch::os::classify_linux_name;
use neofetch::os::classify_windows_caption;
use neofetch::os::arch_name;
use neofetch::os::pretty_name_from_os_release;
use neofetch::os::Distro;
use neofetch::memory::memory_from_meminfo;
use neofetch::platform::android::parse_kernel_version;
use neofetch::platform::linux::get_distro_name;
use neofetch::platform::linux::parse_cpu_range;
use neofetch::platform::linux::parse_os_release;
use neofetch::resolution::parse_drm_resolution;
use neofetch::resolution::parse_wmic_value;
use neofetch::resolution::parse_xrandr_resolution;
use neofetch::system::parse_wmi_datetime;
use neofetch::system::uptime_from;
use neofetch::utils::file::parse_proc_file;
use neofetch::utils::process::parse_ppid_output;

#[test]
fn test_parse_xrandr_resolution() {
    let out = "Screen 0: minimum 16 x 16, current 1618 x 1172, maximum 32767 x 32767";
    assert_eq!(parse_xrandr_resolution(out), Some("1618 x 1172".to_string()));
    assert_eq!(parse_xrandr_resolution("no match here"), None);
}

#[test]
fn test_parse_drm_resolution() {
    assert_eq!(
        parse_drm_resolution("1920x1080\n1280x720"),
        Some("1920 x 1080".to_string())
    );
    assert_eq!(parse_drm_resolution(""), None);
}

#[test]
fn test_parse_wmic_value() {
    let out = "CurrentHorizontalResolution\r\n1920  \r\n";
    assert_eq!(parse_wmic_value(out), Some("1920".to_string()));
    assert_eq!(parse_wmic_value("   \n  "), None);
}

#[test]
fn test_parse_os_release() {
    let content = "NAME=\"Ubuntu\"\nPRETTY_NAME=\"Ubuntu 22.04.1 LTS\"\nID=ubuntu";
    let map = parse_os_release(content);
    assert_eq!(map.get("PRETTY_NAME"), Some(&"Ubuntu 22.04.1 LTS".to_string()));
    assert_eq!(map.get("ID"), Some(&"ubuntu".to_string()));
    assert_eq!(get_distro_name(&map).unwrap(), "Ubuntu 22.04.1 LTS");
}

#[test]
fn test_pretty_name_from_os_release() {
    let content = "ID=debian\nPRETTY_NAME=\"Debian GNU/Linux 12\"";
    assert_eq!(
        pretty_name_from_os_release(content),
        Some("Debian GNU/Linux 12".to_string())
    );
    assert_eq!(pretty_name_from_os_release("ID=debian"), None);
}

#[test]
fn test_classify_names() {
    assert_eq!(classify_linux_name("Ubuntu 22.04"), Distro::Ubuntu);
    assert_eq!(classify_linux_name("Arch Linux"), Distro::Arch);
    assert_eq!(classify_linux_name("Gentoo"), Distro::Linux);
    assert_eq!(classify_windows_caption("Windows 11 Home"), Distro::Windows11);
    assert_eq!(classify_windows_caption("Windows 10 Pro"), Distro::Windows10);
    assert_eq!(classify_windows_caption("Windows 7"), Distro::Windows);
    assert_eq!(arch_name(9), "x86_64");
    assert_eq!(arch_name(5), "ARM64");
    assert_eq!(arch_name(77), "Unknown");
}

#[test]
fn test_parse_cpu_range() {
    assert_eq!(parse_cpu_range("0-7\n").unwrap(), 8);
    assert_eq!(parse_cpu_range("0-0").unwrap(), 1);
    assert!(parse_cpu_range("8").is_err());
    assert!(parse_cpu_range("a-b").is_err());
}

#[test]
fn test_parse_kernel_version() {
    let content = "Linux version 6.1.0-example (gcc 12) #1 SMP";
    assert_eq!(parse_kernel_version(content).unwrap(), "6.1.0-example");
    assert!(parse_kernel_version("no version").is_err());
}

#[test]
fn test_parse_ppid_output() {
    assert_eq!(parse_ppid_output("PPid:\t1234").unwrap(), 1234);
    assert!(parse_ppid_output("PPid 1234").is_err());
    assert!(parse_ppid_output("PPid: abc").is_err());
}

// The management timestamp against the calendar crate the original used:
// both must name the same Unix moment.
#[test]
fn test_parse_wmi_datetime() {
    let t = parse_wmi_datetime("20250530024623.265456+480").unwrap();
    let expected = chrono::NaiveDate::from_ymd_opt(2025, 5, 30)
        .unwrap()
        .and_hms_opt(2, 46, 23)
        .unwrap()
        .and_utc()
        .timestamp();
    assert_eq!(t, expected);
    assert_eq!(parse_wmi_datetime("19700101000000.000000+000").unwrap(), 0);
    assert!(parse_wmi_datetime("2025").is_err());
    assert!(parse_wmi_datetime("20251340000000.000000+000").is_err());
}

#[test]
fn test_uptime_from() {
    assert_eq!(uptime_from(1000, 400).0, 600);
    assert_eq!(uptime_from(400, 1000).0, 0);
}

#[test]
fn test_cpu_from_cpuinfo() {
    let content = "processor: 0\nmodel name: Example Core\ncpu MHz: 2400.000\ncpu cores: 8";
    let cpu = Cpu::from_cpuinfo(&parse_proc_file(content)).unwrap();
    assert_eq!(cpu.name, "Example Core");
    assert_eq!(cpu.speed, 2400);
    assert_eq!(cpu.cores, 8);
    let sparse = Cpu::from_cpuinfo(&parse_proc_file("Hardware: ExampleSoC")).unwrap();
    assert_eq!(sparse.name, "ExampleSoC");
    assert_eq!(sparse.speed, 0);
    assert_eq!(sparse.cores, 0);
    assert!(Cpu::from_cpuinfo(&parse_proc_file("bogo: 42")).is_err());
}

#[test]
fn test_memory_from_meminfo() {
    let content = "MemTotal:       1024 kB\nMemFree:        512 kB";
    assert_eq!(memory_from_meminfo(&parse_proc_file(content)).unwrap(), "512 KiB / 1 MiB");
    assert!(memory_from_meminfo(&parse_proc_file("MemFree: 1 kB")).is_err());
}

#[test]
fn test_parse_pci_ids_and_gpus() {
    let db = "# comment\n8086  Example Vendor\n\t1234  Example VGA Adapter\n\t5678  Other Device\nabcd  Second Vendor\n\t0001  Example 3D Controller";
    let ids = parse_pci_ids(db);
    assert_eq!(ids.vendors.len(), 2);
    assert_eq!(ids.devices.len(), 3);
    let cards = vec![
        ("0x8086\n".to_string(), "0x1234\n".to_string()),
        ("0x8086".to_string(), "0x5678".to_string()),
        ("0xabcd".to_string(), "0x0001".to_string()),
        ("0xffff".to_string(), "0x0000".to_string()),
    ];
    let gpus = gpus_from_pci(&ids, &cards);
    assert_eq!(gpus.len(), 2);
    assert_eq!(gpus[0].name, "Example Vendor");
    assert_eq!(gpus[0].version, "Example VGA Adapter");
    assert_eq!(gpus[1].name, "Second Vendor");
    assert_eq!(gpus[1].version, "Example 3D Controller");
}

#[test]
fn test_parse_ip_brief() {
    let out = "lo  UNKNOWN  127.0.0.1/8 ::1/128\neth0  UP  192.168.1.5/24 fe80::1/64\nshort line";
    let v = neofetch::network::parse_ip_brief(out);
    assert_eq!(v.len(), 2);
    assert_eq!(v[0].interface_name, "lo");
    assert!(!v[0].is_up);
    assert_eq!(v[0].ipv4_address, Some("127.0.0.1".to_string()));
    assert_eq!(v[0].ipv6_address, Some("::1".to_string()));
    assert_eq!(v[1].interface_name, "eth0");
    assert!(v[1].is_up);
    assert_eq!(v[1].ipv4_address, Some("192.168.1.5".to_string()));
    assert_eq!(v[1].mac_address, None);
}

#[test]
fn test_parse_ifconfig() {
    let out = "eth0: flags=4163<UP,BROADCAST,RUNNING,MULTICAST>\n\
        \tinet 192.168.1.5 netmask 255.255.255.0\n\
        \tinet6 fe80::1 prefixlen 64\n\
        \tether aa:bb:cc:dd:ee:ff txqueuelen 1000\n\
        lo: flags=73<LOOPBACK,RUNNING>\n\
        \tinet 127.0.0.1 netmask 255.0.0.0\n";
    let v = neofetch::network::parse_ifconfig(out);
    assert_eq!(v.len(), 2);
    assert_eq!(v[0].interface_name, "eth0");
    assert!(v[0].is_up);
    assert_eq!(v[0].ipv4_address, Some("192.168.1.5".to_string()));
    assert_eq!(v[0].ipv6_address, Some("fe80::1".to_string()));
    assert_eq!(v[0].mac_address, Some("aa:bb:cc:dd:ee:ff".to_string()));
    assert_eq!(v[1].interface_name, "lo");
    assert!(!v[1].is_up);
    assert_eq!(v[1].ipv4_address, Some("127.0.0.1".to_string()));
}
