use deepseek_harness_gui::backend::error::BackendError;
use deepseek_harness_gui::backend::network::{
    check_tcp_timeout, check_url_plan, connect_remote, connect_remote_finish, http_probe_result,
    normalize_host, tcp_probe_result, TcpOutcome, UrlProbe,
};
use deepseek_harness_gui::text::{
    decimal_string, eq_ignore_ascii_case_exec, ipv4_string, parse_ipv4, parse_u64_exec, trim_str,
};

#[test]
fn decimal_text_of_numbers() {
    assert_eq!(decimal_string(0), "0");
    assert_eq!(decimal_string(7), "7");
    assert_eq!(decimal_string(3080), "3080");
    assert_eq!(decimal_string(u64::MAX), "18446744073709551615");
}

#[test]
fn parse_u64_like_std() {
    for s in ["0", "42", "+42", "007", "1786884645", "18446744073709551615"] {
        assert_eq!(parse_u64_exec(s), s.parse::<u64>().ok(), "{s}");
    }
    for s in ["", "+", "-1", "12a", " 1", "18446744073709551616", "１２"] {
        assert_eq!(parse_u64_exec(s), None, "{s}");
        assert!(s.parse::<u64>().is_err());
    }
}

#[test]
fn trim_like_std() {
    for s in ["  a b  ", "\t\n x \r\n", "", "   ", "\u{3000}全角\u{3000}", "\u{85}v1\u{a0}"] {
        assert_eq!(trim_str(s), s.trim(), "{s:?}");
    }
}

#[test]
fn ascii_case_insensitive_equality() {
    assert!(eq_ignore_ascii_case_exec("LOCALHOST", "localhost"));
    assert!(eq_ignore_ascii_case_exec("LocalHost", "localhost"));
    assert!(!eq_ignore_ascii_case_exec("localhos", "localhost"));
    assert!(!eq_ignore_ascii_case_exec("ｌocalhost", "localhost"));
}

#[test]
fn ipv4_parsing_like_std() {
    assert_eq!(parse_ipv4("127.0.0.1"), Some((127, 0, 0, 1)));
    assert_eq!(parse_ipv4("0.0.0.0"), Some((0, 0, 0, 0)));
    assert_eq!(parse_ipv4("255.255.255.255"), Some((255, 255, 255, 255)));
    assert_eq!(parse_ipv4("10.1.2.3"), Some((10, 1, 2, 3)));
    for s in [
        "01.2.3.4", "1.2.3", "1.2.3.4.5", "256.1.1.1", "1..2.3", "", "a.b.c.d", "1.2.3.4 ",
        "1.2.3.-4", "1.2.3.0004", "1.2.3.+4", "1.2.3.",
    ] {
        assert_eq!(parse_ipv4(s), None, "{s}");
    }
    assert_eq!(ipv4_string((192, 168, 0, 10)), "192.168.0.10");
}

#[test]
fn normalize_host_accepts_localhost_and_ipv4_only() {
    assert_eq!(normalize_host("LOCALHOST").ok().as_deref(), Some("localhost"));
    assert_eq!(normalize_host("127.0.0.1").ok().as_deref(), Some("127.0.0.1"));
    assert!(matches!(normalize_host("example.com"), Err(BackendError::InvalidHost)));
    assert!(matches!(normalize_host("::1"), Err(BackendError::InvalidHost)));
    assert!(matches!(normalize_host("http://127.0.0.1"), Err(BackendError::InvalidHost)));
    assert!(matches!(normalize_host("127.0.0.1:80"), Err(BackendError::InvalidHost)));
    assert!(matches!(normalize_host("01.2.3.4"), Err(BackendError::InvalidHost)));
}

#[test]
fn normalize_host_is_idempotent_on_examples() {
    for h in ["LocalHost", "8.8.8.8", "0.0.0.0"] {
        let once = normalize_host(h).ok().unwrap();
        let twice = normalize_host(&once).ok().unwrap();
        assert_eq!(once, twice);
    }
}

#[test]
fn tcp_probe_checks() {
    assert!(matches!(check_tcp_timeout(0), Err(BackendError::InvalidTimeout)));
    assert!(check_tcp_timeout(500).is_ok());
    assert!(tcp_probe_result(TcpOutcome::Connected));
    assert!(!tcp_probe_result(TcpOutcome::Failed));
    assert!(!tcp_probe_result(TcpOutcome::TimedOut));
}

#[test]
fn check_url_plan_cases() {
    assert!(matches!(check_url_plan("http", "127.0.0.1", 80, 0), Err(BackendError::InvalidTimeout)));
    assert!(matches!(check_url_plan("ftp", "127.0.0.1", 80, 10), Err(BackendError::InvalidProtocol)));
    assert!(matches!(check_url_plan("HTTP", "127.0.0.1", 80, 10), Err(BackendError::InvalidProtocol)));
    match check_url_plan("http", "127.0.0.1", 3000, 500) {
        Ok(UrlProbe::Get(url)) => assert_eq!(url, "http://127.0.0.1:3000/"),
        _ => panic!("expected a request"),
    }
    match check_url_plan("https", "localhost", 443, 500) {
        Ok(UrlProbe::Get(url)) => assert_eq!(url, "https://localhost/"),
        _ => panic!("expected a request"),
    }
    assert!(matches!(check_url_plan("http", "exa mple", 80, 10), Ok(UrlProbe::Fail)));
}

#[test]
fn http_status_reading() {
    assert!(http_probe_result(200));
    assert!(http_probe_result(204));
    assert!(http_probe_result(299));
    assert!(!http_probe_result(401));
    assert!(!http_probe_result(302));
    assert!(!http_probe_result(403));
    assert!(!http_probe_result(404));
    assert!(!http_probe_result(500));
}

#[test]
fn connect_remote_examples() {
    let plan = connect_remote("http", "LOCALHOST", 3000).ok().unwrap();
    assert_eq!(plan.address, "http://localhost:3000");
    assert!(matches!(plan.probe, UrlProbe::Get(ref u) if u == "http://localhost:3000/"));
    let plan = connect_remote("https", "127.0.0.1", 3000).ok().unwrap();
    assert_eq!(plan.address, "https://127.0.0.1:3000");
    assert_eq!(connect_remote_finish(plan, true).ok().as_deref(), Some("https://127.0.0.1:3000"));
}

#[test]
fn connect_remote_errors_in_order() {
    assert!(matches!(connect_remote("ftp", "bad host", 0), Err(BackendError::InvalidPort)));
    assert!(matches!(connect_remote("ftp", "bad host", 1), Err(BackendError::InvalidHost)));
    assert!(matches!(connect_remote("ftp", "127.0.0.1", 1), Err(BackendError::InvalidProtocol)));
    let plan = connect_remote("http", "10.0.0.1", 8080).ok().unwrap();
    assert!(matches!(connect_remote_finish(plan, false), Err(BackendError::ServiceUnavailable)));
}
