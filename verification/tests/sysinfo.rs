use leafcast::sysinfo::{file_info, has_jpg_extension, ip_address, uptime_seconds, DirEntryInfo, SysInfo};

fn entry(name: &str, size: Option<u64>) -> DirEntryInfo {
    DirEntryInfo { file_name: name.as_bytes().to_vec(), size }
}

#[test]
fn sysinfo_get_ip_na() {
    // The file "na" cannot be read.
    let result = ip_address(None);
    assert_eq!(result, "N/A");
}

#[test]
fn sysinfo_get_ip_ok() {
    let result = ip_address(Some(String::from("127.0.0.1\n")));
    assert_eq!(result, "127.0.0.1");
}

#[test]
fn ip_address_short_or_blank() {
    assert_eq!(ip_address(Some(String::new())), "N/A");
    assert_eq!(ip_address(Some(String::from("x"))), "N/A");
    assert_eq!(ip_address(Some(String::from(" \t 10.0.0.2 \u{3000}\r\n"))), "10.0.0.2");
    assert_eq!(ip_address(Some(String::from("  "))), "");
    assert_eq!(ip_address(Some(String::from("é"))), "é");
}

#[test]
fn jpg_extension_cases() {
    assert!(has_jpg_extension(b"2024-01-01_10-00-00.jpg"));
    assert!(has_jpg_extension(b"photo.JPG"));
    assert!(has_jpg_extension(b"a.b.JpG"));
    assert!(!has_jpg_extension(b".jpg"));
    assert!(!has_jpg_extension(b"photo.jpeg"));
    assert!(!has_jpg_extension(b"photo.webp"));
    assert!(!has_jpg_extension(b"jpg"));
    assert!(!has_jpg_extension(b".."));
    assert!(!has_jpg_extension(b"photo."));
    assert!(has_jpg_extension(b"..jpg"));
}

#[test]
fn file_info_totals() {
    let listing = Some(vec![
        entry("a.jpg", Some(100)),
        entry("b.webp", None),
        entry("c.JPG", Some(50)),
        entry(".jpg", Some(7)),
    ]);
    assert_eq!(file_info(&listing), (150, 2));
    assert_eq!(file_info(&None), (0, 0));
    assert_eq!(file_info(&Some(vec![])), (0, 0));
    let broken = Some(vec![entry("a.jpg", Some(100)), entry("b.jpg", None)]);
    assert_eq!(file_info(&broken), (0, 0));
}

#[test]
fn uptime_parsing() {
    assert_eq!(uptime_seconds(Some(String::from("12345.67 54321.00\n"))), 12345);
    assert_eq!(uptime_seconds(Some(String::from("+61.5 1.0"))), 61);
    assert_eq!(uptime_seconds(Some(String::from("61 1"))), 0);
    assert_eq!(uptime_seconds(Some(String::from("-5.0"))), 0);
    assert_eq!(uptime_seconds(Some(String::from("+.0"))), 0);
    assert_eq!(uptime_seconds(Some(String::from("1a.0"))), 0);
    assert_eq!(uptime_seconds(Some(String::from("99999999999999999999999.0"))), 0);
    assert_eq!(uptime_seconds(None), 0);
}

#[test]
fn sysinfo_new_combines() {
    let listing = Some(vec![entry("a.jpg", Some(10)), entry("b.jpg", Some(5))]);
    let info = SysInfo::new(
        &listing,
        Some(String::from("192.168.1.2\n")),
        Some(String::from("3600.25 7000.00")),
        30,
        1,
        "0.1.0",
    );
    assert_eq!(info.total_file_size, 15);
    assert_eq!(info.number_images, 2);
    assert_eq!(info.internal_ip, "192.168.1.2");
    assert_eq!(info.uptime, 3600);
    assert_eq!(info.websocket_uptime, 30);
    assert_eq!(info.app_uptime, 1);
    assert_eq!(info.version, "0.1.0");
}
