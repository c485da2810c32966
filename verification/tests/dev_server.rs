use daedalus::dev_server::{current_timestamp, format_timestamp, is_kernel_request, is_prompt};

#[test]
fn test_timestamp_format() {
    let ts = current_timestamp();
    assert_eq!(ts.len(), 8); // HH:MM:SS
    assert_eq!(ts.chars().nth(2), Some(':'));
    assert_eq!(ts.chars().nth(5), Some(':'));
}

#[test]
fn format_timestamp_midnight_and_wrap() {
    assert_eq!(format_timestamp(0), "00:00:00");
    assert_eq!(format_timestamp(3_661), "01:01:01");
    assert_eq!(format_timestamp(86_399), "23:59:59");
    assert_eq!(format_timestamp(86_400), "00:00:00");
    assert_eq!(format_timestamp(1_700_000_000), "22:13:20");
}

#[test]
fn kernel_request_prefix() {
    assert!(is_kernel_request("GET /kernel\r\n"));
    assert!(is_kernel_request("GET /kernel8.img"));
    assert!(!is_kernel_request("GET /kerne"));
    assert!(!is_kernel_request("POST /kernel"));
    assert!(is_prompt("daedalus> "));
    assert!(!is_prompt("daedalus"));
}
