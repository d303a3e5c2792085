use file_drop::{base_url_from_trimmed, created_body, fetch_command, normalize_base_url, push_decimal};

#[test]
fn decimal_digits() {
    let mut s = String::new();
    push_decimal(&mut s, 0);
    assert_eq!(s, "0");
    let mut s = String::from("size ");
    push_decimal(&mut s, 12);
    assert_eq!(s, "size 12");
    let mut s = String::new();
    push_decimal(&mut s, u64::MAX);
    assert_eq!(s, "18446744073709551615");
    let mut s = String::new();
    push_decimal(&mut s, 1073741824);
    assert_eq!(s, "1073741824");
}

#[test]
fn base_url_falls_back_to_localhost() {
    assert_eq!(normalize_base_url(String::new(), 8080), "http://localhost:8080");
    assert_eq!(normalize_base_url("   ".to_string(), 3000), "http://localhost:3000");
    assert_eq!(base_url_from_trimmed("", 0), "http://localhost:0");
}

#[test]
fn base_url_adds_scheme_and_drops_trailing_slashes() {
    assert_eq!(base_url_from_trimmed("example.com", 1), "https://example.com");
    assert_eq!(base_url_from_trimmed("example.com///", 1), "https://example.com");
    assert_eq!(base_url_from_trimmed("http://a.b/", 1), "http://a.b");
    assert_eq!(base_url_from_trimmed("https://a.b/x", 1), "https://a.b/x");
    assert_eq!(base_url_from_trimmed("httpx://a", 1), "https://httpx://a");
}

#[test]
fn base_url_is_trimmed() {
    assert_eq!(normalize_base_url("  files.example.org/ \n".to_string(), 80), "https://files.example.org");
    assert_eq!(normalize_base_url("\thttp://h:9/\t".to_string(), 80), "http://h:9");
}

#[test]
fn fetch_command_quotes_the_address() {
    assert_eq!(
        fetch_command("http://localhost:8080", "report.txt"),
        "wget http://localhost:8080/files/report.txt"
    );
    assert_eq!(
        fetch_command("https://h/a b", "x"),
        "wget 'https://h/a b/files/x'"
    );
}

#[test]
fn created_body_reports_count() {
    let body = created_body("http://localhost:8080", "report.txt", 12);
    assert_eq!(
        body,
        "Upload OK\nwget: wget http://localhost:8080/files/report.txt\nsize: 12 bytes\n"
    );
    assert!(body.contains("12 bytes"));
}
