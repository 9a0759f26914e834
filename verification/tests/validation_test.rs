use courier::validation::{validate_auth_token, validate_ip_address, validate_port, validate_protocols, validate_subdomain};

#[test]
fn test_valid_subdomain() {
    assert!(validate_subdomain("my-tunnel").is_ok());
    assert!(validate_subdomain("api-server").is_ok());
    assert!(validate_subdomain("app123").is_ok());
}

#[test]
fn test_invalid_subdomain_too_short() {
    assert!(validate_subdomain("a").is_err());
}

#[test]
fn test_invalid_subdomain_too_long() {
    let long = "a".repeat(33);
    assert!(validate_subdomain(&long).is_err());
}

#[test]
fn test_invalid_subdomain_chars() {
    assert!(validate_subdomain("my_tunnel").is_err());
    assert!(validate_subdomain("MY-TUNNEL").is_err());
    assert!(validate_subdomain("-tunnel").is_err());
    assert!(validate_subdomain("tunnel-").is_err());
}

#[test]
fn test_valid_port() {
    assert!(validate_port(80).is_ok());
    assert!(validate_port(8080).is_ok());
    assert!(validate_port(3000).is_ok());
    assert!(validate_port(65535).is_ok());
}

#[test]
fn test_invalid_port_zero() {
    assert!(validate_port(0).is_err());
}

#[test]
fn test_invalid_port_too_high() {
    assert!(validate_port(65535).is_ok()); // 65535 is max valid port
    // Can't test 65536 as literal because it overflows u16
}

#[test]
fn test_valid_ip() {
    assert!(validate_ip_address("127.0.0.1").is_ok());
    assert!(validate_ip_address("192.168.1.1").is_ok());
    assert!(validate_ip_address("10.0.0.1").is_ok());
}

#[test]
fn test_invalid_ip() {
    assert!(validate_ip_address("256.1.1.1").is_err());
    assert!(validate_ip_address("192.168.1").is_err());
    assert!(validate_ip_address("invalid").is_err());
}

#[test]
fn test_valid_auth_token() {
    assert!(validate_auth_token("test-token-123").is_ok());
    assert!(validate_auth_token(&"a".repeat(256)).is_ok());
}

#[test]
fn test_invalid_auth_token() {
    assert!(validate_auth_token("short").is_err());
    assert!(validate_auth_token(&"a".repeat(257)).is_err());
}

#[test]
fn test_valid_protocols() {
    assert!(validate_protocols(&vec!["http".to_string()]).is_ok());
    assert!(validate_protocols(&vec!["https".to_string(), "tcp".to_string()]).is_ok());
}

#[test]
fn test_invalid_protocols_empty() {
    assert!(validate_protocols(&vec![]).is_err());
}

#[test]
fn test_invalid_protocols_unknown() {
    assert!(validate_protocols(&vec!["ftp".to_string()]).is_err());
}

#[test]
fn subdomain_error_messages() {
    assert_eq!(validate_subdomain("a").unwrap_err(), "子域名至少需要 2 个字符");
    assert_eq!(validate_subdomain(&"a".repeat(33)).unwrap_err(), "子域名最多 32 个字符");
    assert_eq!(validate_subdomain("ab_c").unwrap_err(), "子域名只允许使用小写字母、数字和连字符");
    assert_eq!(validate_subdomain("-ab").unwrap_err(), "子域名不能以连字符开头或结尾");
    assert!(validate_subdomain(&"a".repeat(32)).is_ok());
    assert!(validate_subdomain("ab").is_ok());
}

#[test]
fn port_and_token_error_messages() {
    assert_eq!(validate_port(0).unwrap_err(), "端口号必须大于 0");
    assert_eq!(validate_auth_token("1234567").unwrap_err(), "认证令牌至少需要 8 个字符");
    assert!(validate_auth_token("12345678").is_ok());
    assert_eq!(validate_auth_token(&"x".repeat(257)).unwrap_err(), "认证令牌最多 256 个字符");
}

#[test]
fn ip_octet_edges() {
    assert!(validate_ip_address("255.255.255.255").is_ok());
    assert!(validate_ip_address("0.0.0.0").is_ok());
    assert!(validate_ip_address("001.02.199.249").is_ok());
    assert!(validate_ip_address("1.2.3.4.5").is_err());
    assert!(validate_ip_address("1.2.3.").is_err());
    assert!(validate_ip_address("1.2.3.260").is_err());
    assert!(validate_ip_address("1.2.3.4 ").is_err());
    assert_eq!(validate_ip_address("x").unwrap_err(), "无效的 IP 地址格式");
}

#[test]
fn protocol_error_names_first_unknown() {
    assert_eq!(validate_protocols(&vec![]).unwrap_err(), "至少需要指定一个协议");
    let e = validate_protocols(&vec!["http".to_string(), "ftp".to_string(), "gopher".to_string()]).unwrap_err();
    assert_eq!(e, "无效的协议 'ftp', 允许的协议: http, https, tcp, udp");
    assert!(validate_protocols(&vec!["udp".to_string(), "tcp".to_string(), "https".to_string(), "http".to_string()]).is_ok());
    assert!(validate_protocols(&vec!["HTTP".to_string()]).is_err());
}

#[test]
fn lengths_count_characters() {
    assert_eq!(validate_auth_token("令牌令牌令").unwrap_err(), "认证令牌至少需要 8 个字符");
    assert!(validate_auth_token("令牌令牌令牌令牌").is_ok());
    let long: String = std::iter::repeat('令').take(257).collect();
    assert_eq!(validate_auth_token(&long).unwrap_err(), "认证令牌最多 256 个字符");
    let wide: String = std::iter::repeat('子').take(20).collect();
    assert_eq!(validate_subdomain(&wide).unwrap_err(), "子域名只允许使用小写字母、数字和连字符");
    let many: String = std::iter::repeat('子').take(33).collect();
    assert_eq!(validate_subdomain(&many).unwrap_err(), "子域名最多 32 个字符");
}

#[test]
fn generated_subdomains_pass_both_checks() {
    for _ in 0..50 {
        let s = courier::protocol::generate_subdomain();
        assert!(courier::protocol::validate_subdomain(&s));
        assert!(validate_subdomain(&s).is_ok());
    }
}
