use neofetch::error::NeofetchError;
use neofetch::utils::file::file_exists;
use neofetch::utils::file::get_filename;
use neofetch::utils::file::parse_key_value;
use neofetch::utils::file::parse_proc_file;

#[test]
fn test_error_display() {
    let err = NeofetchError::parse_error("cpu_speed", "invalid number");
    assert_eq!(err.message(), "Failed to parse cpu_speed: invalid number");
}

#[test]
fn test_data_unavailable() {
    let err = NeofetchError::data_unavailable("GPU information");
    assert_eq!(err.message(), "Data not available: GPU information");
}

#[test]
fn test_parse_proc_file() {
    let content = "MemTotal:       16384 kB\nMemFree:        8192 kB\nBuffers:        1024 kB";
    let parsed = parse_proc_file(content);

    assert_eq!(parsed.get("MemTotal"), Some(&"16384 kB".to_string()));
    assert_eq!(parsed.get("MemFree"), Some(&"8192 kB".to_string()));
    assert_eq!(parsed.get("Buffers"), Some(&"1024 kB".to_string()));
}

#[test]
fn test_parse_key_value() {
    let content = "NAME=\"Ubuntu\"\nVERSION=\"22.04\"";
    let parsed = parse_key_value(content, '=');

    assert_eq!(parsed.get("NAME"), Some(&"\"Ubuntu\"".to_string()));
    assert_eq!(parsed.get("VERSION"), Some(&"\"22.04\"".to_string()));
}

#[test]
fn test_get_filename() {
    assert_eq!(get_filename("/usr/bin/bash"), Some("bash".to_string()));
    assert_eq!(
        get_filename("C:\\Windows\\System32\\cmd.exe"),
        Some("cmd".to_string())
    );
    assert_eq!(get_filename("file.txt"), Some("file".to_string()));
}

#[test]
fn test_file_exists() {
    assert!(file_exists("/"));
    assert!(!file_exists("/this/path/should/not/exist"));
}

#[test]
fn test_error_messages_by_variant() {
    assert_eq!(
        NeofetchError::file_read("/proc/cpuinfo", "denied").message(),
        "Failed to read file '/proc/cpuinfo': denied"
    );
    assert_eq!(
        NeofetchError::file_write("/tmp/out", "full").message(),
        "Failed to write file '/tmp/out': full"
    );
    assert_eq!(
        NeofetchError::command_execution("xrandr", "not found").message(),
        "Failed to execute command 'xrandr': not found"
    );
    assert_eq!(
        NeofetchError::command_failed("lspci", 3).message(),
        "Command 'lspci' failed with exit code 3"
    );
    assert_eq!(
        NeofetchError::command_failed("lspci", -1).message(),
        "Command 'lspci' failed with exit code -1"
    );
    assert_eq!(
        NeofetchError::system_call("uname failed").message(),
        "System call failed: uname failed"
    );
    assert_eq!(
        NeofetchError::wmi_error("no namespace").message(),
        "WMI query failed: no namespace"
    );
    assert_eq!(
        NeofetchError::UnsupportedPlatform.message(),
        "Feature not available on this platform"
    );
}

#[test]
fn test_proc_map_last_entry_wins() {
    let parsed = parse_proc_file("k: first\nk: second");
    assert_eq!(parsed.get("k"), Some(&"second".to_string()));
    assert_eq!(parsed.get("missing"), None);
}

#[test]
fn test_parse_proc_file_skips_bad_lines() {
    let parsed = parse_proc_file("no colon here\n: empty key\nempty value:\nok: yes");
    assert_eq!(parsed.entries.len(), 1);
    assert_eq!(parsed.get("ok"), Some(&"yes".to_string()));
}

#[test]
fn test_timeout_message() {
    assert_eq!(NeofetchError::Timeout.message(), "Probe timed out");
}
