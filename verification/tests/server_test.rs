use courier::auth::{
    authorize, bearer_token, check_token_claims, claims_from_fields, generate_token, validate_auth_token, verify_password,
    Claims,
};
use courier::db::{database_url, subdomain_conflict_result, tunnel_from_row, tunnel_or_not_found, unique_subdomain_result};
use courier::errors::{ApiError, ErrorDetails};
use courier::handlers::{
    after_conflict_check, check_register_request, health_check, login, proxy_target_url, registration_response, require_admin_password,
    tunnel_status, AccessLogRecord, ListTunnelsResponse, LogListResponse, LoginRequest, ServerConfig,
};
use courier::protocol::{ApiRegisterRequest, CourierError, RegisterRequest};
use courier::registry::{ClientSession, TunnelRegistry};
use courier::session::{
    admit_subscriber, end_client_session, new_tunnel_id, on_client_frame, plan_client_registration, public_url,
    route_first_message, tunnel_id_from_uuid, ClientFrame, FrameAction, SocketRole,
};
use courier::access_log::{is_expired_log_file, log_file_date, log_file_name, needs_rotation, http_request_entry, LogEntry};

const TEST_SECRET: &str = "test_secret_key_123";

#[test]
fn test_valid_token() {
    let token = generate_token("user_123".to_string(), 1, TEST_SECRET).unwrap();
    let claims = validate_auth_token(&token, TEST_SECRET).unwrap();
    assert_eq!(claims.sub, "user_123");
}

#[test]
fn test_invalid_token() {
    let result = validate_auth_token("invalid_token", TEST_SECRET);
    assert!(result.is_err());
    let err_msg = result.unwrap_err();
    assert!(err_msg.contains("Invalid token signature") || err_msg.contains("Token decode failed"));
}

#[test]
fn test_wrong_secret() {
    let token = generate_token("user_123".to_string(), 1, TEST_SECRET).unwrap();
    let result = validate_auth_token(&token, "wrong_secret");
    assert!(result.is_err());
}

#[test]
fn test_token_claims() {
    let token = generate_token("user_456".to_string(), 24, TEST_SECRET).unwrap();
    let claims = validate_auth_token(&token, TEST_SECRET).unwrap();

    assert_eq!(claims.sub, "user_456");
    assert!(claims.exp > claims.iat);
    assert!(!claims.jti.is_empty());
}

#[test]
fn auth_test_empty_token() {
    let result = validate_auth_token("", TEST_SECRET);
    assert!(result.is_err());
    assert_eq!(result.unwrap_err(), "Empty auth token");
}

#[test]
fn test_verify_password_constant_time() {
    assert!(verify_password("secret", "secret"));
    assert!(!verify_password("secret", "wrong"));
    assert!(!verify_password("", "secret"));
}

#[test]
fn test_token_expiry_calculation() {
    let token = generate_token("user_789".to_string(), 24, TEST_SECRET).unwrap();
    let claims = validate_auth_token(&token, TEST_SECRET).unwrap();

    let expected_expiry_range = 24 * 3600;
    let actual_expiry = claims.exp - claims.iat;

    assert!((actual_expiry as i64 - expected_expiry_range as i64).abs() <= 1);
}

#[test]
fn claims_carry_issue_time_in_id() {
    let c = Claims::new_at("u".to_string(), 2, 1000);
    assert_eq!(c.exp, 1000 + 7200);
    assert_eq!(c.iat, 1000);
    assert_eq!(c.jti, "jti_1000");
    let c = Claims::new("u".to_string(), 0);
    assert_eq!(c.exp, c.iat);
    assert_eq!(c.jti, format!("jti_{}", c.iat));
}

#[test]
fn expired_claims_are_refused() {
    let c = Claims::new_at("u".to_string(), 0, 100);
    assert_eq!(check_token_claims(Ok(c), 101).unwrap_err(), "Token expired");
    let c = Claims::new_at("u".to_string(), 0, 100);
    assert_eq!(check_token_claims(Ok(c), 100).unwrap().sub, "u");
    assert_eq!(check_token_claims(Err("bad".to_string()), 0).unwrap_err(), "Invalid token signature: bad");
}

#[test]
fn missing_claim_fields_are_named() {
    assert_eq!(claims_from_fields(None, Some(1), Some(1), Some("j".to_string())).unwrap_err(), "missing field `sub`");
    assert_eq!(claims_from_fields(Some("s".to_string()), None, Some(1), None).unwrap_err(), "missing field `exp`");
    assert_eq!(claims_from_fields(Some("s".to_string()), Some(1), None, None).unwrap_err(), "missing field `iat`");
    assert_eq!(claims_from_fields(Some("s".to_string()), Some(1), Some(2), None).unwrap_err(), "missing field `jti`");
    let c = claims_from_fields(Some("s".to_string()), Some(1), Some(2), Some("j".to_string())).unwrap();
    assert_eq!((c.sub.as_str(), c.exp, c.iat, c.jti.as_str()), ("s", 1, 2, "j"));
}

#[test]
fn bearer_header_checks() {
    assert_eq!(bearer_token(Some("Bearer abc")), Some("abc".to_string()));
    assert_eq!(bearer_token(Some("Basic abc")), None);
    assert_eq!(bearer_token(None), None);
    match authorize(None, "s") {
        Err(ApiError::Unauthorized(m)) => assert_eq!(m, "缺少 Authorization header"),
        _ => panic!("expected 401"),
    }
    match authorize(Some("Bearer invalid.token.here"), "s") {
        Err(ApiError::Unauthorized(m)) => assert!(m.starts_with("Invalid token signature: ")),
        _ => panic!("expected 401"),
    }
    let token = generate_token("admin".to_string(), 24, "test_secret").unwrap();
    let header = format!("Bearer {}", token);
    assert_eq!(authorize(Some(&header), "test_secret").unwrap().sub, "admin");
}

#[test]
fn test_validate_auth_token_rejects_empty_string() {
    let result = validate_auth_token("", "test_secret");
    assert!(result.is_err(), "missing token should be rejected");
}

#[test]
fn test_subscribe_token_validation_accepts_valid_token() {
    let secret = "test_secret";
    let token = generate_token("admin".to_string(), 24, secret).expect("token generation should succeed");
    let result = validate_auth_token(&token, secret);
    assert!(result.is_ok(), "valid token should be accepted");
}

#[test]
fn test_admin_password_required() {
    assert!(require_admin_password(None).is_err());
    assert!(require_admin_password(Some("secret".to_string())).is_ok());
}

#[test]
fn test_app_state_creation() {
    let config = ServerConfig {
        server_domain: "example.com".to_string(),
        admin_password: Some("password".to_string()),
    };
    assert_eq!(config.server_domain, "example.com");
}

#[test]
fn test_handler_validation() {
    // 基础的处理器逻辑测试将在集成测试中进行
}

#[test]
fn login_outcomes() {
    let ok = login(&LoginRequest { password: Some("mysecret".to_string()) }, Some("mysecret")).unwrap();
    assert_eq!(ok.expires_in, 86400);
    assert!(validate_auth_token(&ok.token, "mysecret").is_ok());
    match login(&LoginRequest { password: Some("wrong".to_string()) }, Some("mysecret")) {
        Err(e) => assert_eq!(e.response().status, 401),
        Ok(_) => panic!("wrong password accepted"),
    }
    match login(&LoginRequest { password: None }, Some("mysecret")) {
        Err(e) => assert_eq!(e.response().status, 400),
        Ok(_) => panic!("missing password accepted"),
    }
    match login(&LoginRequest { password: Some(String::new()) }, None) {
        Err(ApiError::Unauthorized(m)) => assert_eq!(m, "密码错误"),
        _ => panic!("empty password accepted"),
    }
}

#[test]
fn health_is_ok() {
    let h = health_check("1.0.0");
    assert_eq!((h.status.as_str(), h.version.as_str(), h.active_tunnels, h.uptime), ("ok", "1.0.0", 0, 0));
}

#[test]
fn api_error_responses() {
    let r = ApiError::ValidationError("bad".to_string()).response();
    assert_eq!((r.status, r.code.as_str(), r.message.as_str()), (400, "VALIDATION_ERROR", "bad"));
    let r = ApiError::FieldValidationError { field: "port".to_string(), reason: "zero".to_string() }.response();
    assert_eq!((r.status, r.code.as_str(), r.message.as_str()), (400, "FIELD_VALIDATION_ERROR", "字段 'port' 验证失败"));
    assert!(matches!(r.details, ErrorDetails::Field { .. }));
    let r = ApiError::NotFound("x".to_string()).response();
    assert_eq!((r.status, r.code.as_str()), (404, "NOT_FOUND"));
    let r = ApiError::DatabaseError("x".to_string()).response();
    assert_eq!((r.status, r.code.as_str()), (500, "DATABASE_ERROR"));
    match r.details {
        ErrorDetails::Reason(m) => assert_eq!(m, "数据库连接或查询失败"),
        _ => panic!("expected reason"),
    }
    let r = ApiError::InternalError("x".to_string()).response();
    assert_eq!((r.status, r.code.as_str()), (500, "INTERNAL_ERROR"));
    assert_eq!(ApiError::NotFound("t".to_string()).to_string(), "未找到：t");
    assert_eq!(
        ApiError::FieldValidationError { field: "a".to_string(), reason: "b".to_string() }.to_string(),
        "字段 'a' 验证失败：b"
    );
    let e: ApiError = "boom".to_string().into();
    assert!(matches!(e, ApiError::InternalError(ref m) if m == "boom"));
}

#[test]
fn courier_errors_become_api_errors() {
    match ApiError::from_courier(CourierError::InvalidLocalPort(0)) {
        ApiError::ValidationError(m) => assert_eq!(m, "无效的本地端口: 0"),
        _ => panic!(),
    }
    assert!(matches!(ApiError::from_courier(CourierError::TunnelNotFound("t".to_string())), ApiError::NotFound(_)));
    assert!(matches!(ApiError::from_courier(CourierError::DatabaseError("d".to_string())), ApiError::DatabaseError(_)));
    match ApiError::from_courier(CourierError::ProxyError("p".to_string())) {
        ApiError::InternalError(m) => assert_eq!(m, "代理错误: p"),
        _ => panic!(),
    }
    let e = ApiError::from_courier(CourierError::InvalidRequest("Invalid subdomain format".to_string()));
    match &e {
        ApiError::ValidationError(m) => assert_eq!(m, "Invalid subdomain format"),
        _ => panic!("expected a client error"),
    }
    assert_eq!(e.response().status, 400);
}

fn api_request(token: &str, port: u16, sub: &str) -> ApiRegisterRequest {
    ApiRegisterRequest {
        auth_token: token.to_string(),
        local_port: port,
        protocols: vec!["http".to_string()],
        subdomain: sub.to_string(),
    }
}

#[test]
fn register_request_checks() {
    assert!(matches!(check_register_request(&api_request("", 80, "a")), Err(CourierError::InvalidAuth(_))));
    assert!(matches!(check_register_request(&api_request("t", 0, "a")), Err(CourierError::InvalidLocalPort(0))));
    assert!(matches!(check_register_request(&api_request("t", 80, "-a")), Err(CourierError::InvalidRequest(_))));
    assert_eq!(check_register_request(&api_request("t", 80, "my-app")).unwrap(), "my-app");
    assert_eq!(check_register_request(&api_request("t", 80, "")).unwrap().len(), 6);
    assert!(matches!(
        after_conflict_check(Err(CourierError::DatabaseError("x".to_string())), "s".to_string()),
        Err(CourierError::SubdomainConflict(ref m)) if m == "s"
    ));
    let resp = registration_response("tun_1".to_string(), "app", "example.com");
    assert_eq!(resp.public_url, "https://app.example.com");
    assert_eq!(resp.server_domain, "example.com");
}

#[test]
fn tunnel_ids_and_urls() {
    assert_eq!(tunnel_id_from_uuid("3f2a9c1e-0000-4000-8000-000000000000"), "tun_3F2A9C1E");
    let id = new_tunnel_id();
    assert_eq!(id.len(), 12);
    assert!(id.starts_with("tun_"));
    assert!(id[4..].chars().all(|c| c.is_ascii_digit() || ('A'..='F').contains(&c)));
    assert_eq!(public_url("abc", "localhost:8080"), "https://abc.localhost:8080");
}

#[test]
fn first_message_routing_and_subscribers() {
    assert_eq!(route_first_message(Some("register")), SocketRole::Client);
    assert_eq!(route_first_message(Some("subscribe")), SocketRole::Subscriber);
    assert_eq!(route_first_message(Some("hello")), SocketRole::Ignored);
    assert_eq!(route_first_message(None), SocketRole::Ignored);
    let token = generate_token("admin".to_string(), 24, "pw").unwrap();
    assert!(admit_subscriber(Some(&token), Some("pw")));
    assert!(!admit_subscriber(Some(&token), None));
    assert!(!admit_subscriber(None, Some("pw")));
    assert!(!admit_subscriber(Some(&token), Some("other")));
}

#[test]
fn test_registry_register_and_count() {
    let registry = TunnelRegistry::new();
    assert_eq!(registry.client_count(), 0);
}

#[test]
fn test_registry_remove_nonexistent_is_ok() {
    let mut registry = TunnelRegistry::new();
    registry.remove_client("nonexistent");
    assert_eq!(registry.client_count(), 0);
}

#[test]
fn registry_lifecycle() {
    let mut reg = TunnelRegistry::new();
    let ev = reg.register_client("tun_A".to_string(), ClientSession::new("aaa".to_string(), 3000));
    assert_eq!(ev.public_url, "https://aaa.placeholder");
    reg.register_client("tun_B".to_string(), ClientSession::new("bbb".to_string(), 3001));
    assert_eq!(reg.client_count(), 2);
    // registering an existing id replaces its session
    reg.register_client("tun_A".to_string(), ClientSession::new("ccc".to_string(), 3002));
    assert_eq!(reg.client_count(), 2);
    let snap = reg.snapshot();
    let a = snap.iter().find(|e| e.courier_id == "tun_A").unwrap();
    assert_eq!((a.subdomain.as_str(), a.local_port), ("ccc", 3002));

    assert_eq!(on_client_frame(&mut reg, "tun_A", &ClientFrame::Binary(100)), FrameAction::Continue);
    assert_eq!(on_client_frame(&mut reg, "tun_A", &ClientFrame::Binary(23)), FrameAction::Continue);
    assert_eq!(on_client_frame(&mut reg, "tun_Z", &ClientFrame::Binary(7)), FrameAction::Continue);
    assert_eq!(reg.bytes_transferred("tun_A"), Some(123));
    assert_eq!(reg.bytes_transferred("tun_Z"), None);
    let stats = reg.stats();
    assert_eq!(stats.tunnels.len(), 2);
    assert_eq!(stats.tunnels.iter().find(|t| t.courier_id == "tun_A").unwrap().bytes_transferred, 123);

    assert_eq!(
        on_client_frame(&mut reg, "tun_A", &ClientFrame::Text(Some("heartbeat".to_string()))),
        FrameAction::SendHeartbeatAck
    );
    assert_eq!(
        on_client_frame(&mut reg, "tun_Z", &ClientFrame::Text(Some("heartbeat".to_string()))),
        FrameAction::Continue
    );
    assert_eq!(on_client_frame(&mut reg, "tun_A", &ClientFrame::Text(None)), FrameAction::Continue);
    assert_eq!(on_client_frame(&mut reg, "tun_A", &ClientFrame::Other), FrameAction::Continue);
    assert_eq!(on_client_frame(&mut reg, "tun_A", &ClientFrame::Close), FrameAction::Stop);
    assert_eq!(on_client_frame(&mut reg, "tun_A", &ClientFrame::Error), FrameAction::Stop);

    let ev = end_client_session(&mut reg, "tun_A");
    assert_eq!(ev.courier_id, "tun_A");
    assert_eq!(reg.client_count(), 1);
    assert!(!reg.contains_client("tun_A"));
    assert!(reg.contains_client("tun_B"));
}

#[test]
fn failed_subscribers_are_dropped() {
    let mut reg = TunnelRegistry::new();
    for h in [10u64, 11, 12, 13, 14] {
        reg.add_subscriber(h);
    }
    let removed = reg.remove_failed_subscribers(&vec![1, 3]);
    let mut removed_sorted = removed.clone();
    removed_sorted.sort();
    assert_eq!(removed_sorted, vec![11, 13]);
    let mut left = reg.subscriber_handles();
    assert_eq!(left, vec![10, 14, 12]);
    left.sort();
    assert_eq!(left, vec![10, 12, 14]);
    let removed = reg.remove_failed_subscribers(&vec![0, 1, 2]);
    assert_eq!(removed.len(), 3);
    assert_eq!(reg.subscriber_count(), 0);
}

#[test]
fn client_registration_plans() {
    let req = RegisterRequest {
        auth_token: "tok".to_string(),
        local_port: 3000,
        protocols: vec![],
        subdomain: "mine".to_string(),
    };
    let p = plan_client_registration(&req, "example.com").unwrap();
    assert_eq!(p.subdomain, "mine");
    assert_eq!(p.public_url, "https://mine.example.com");
    assert!(p.courier_id.starts_with("tun_"));
    let e = p.established();
    assert_eq!(e.courier_id, p.courier_id);
    let s = p.session();
    assert_eq!((s.subdomain.as_str(), s.local_port, s.bytes_transferred), ("mine", 3000, 0));
    let req2 = RegisterRequest { auth_token: String::new(), ..req.clone() };
    assert!(plan_client_registration(&req2, "example.com").is_none());
    let req3 = RegisterRequest { subdomain: String::new(), ..req };
    assert_eq!(plan_client_registration(&req3, "example.com").unwrap().subdomain.len(), 6);
}

#[test]
fn database_rows_and_decisions() {
    let t = tunnel_from_row(
        "tun_1".into(), "sub".into(), "tok".into(), 3000, "active".into(), 0, 42,
    );
    assert_eq!(t.local_port, 3000);
    assert_eq!(t.created_at_iso, "1970-01-01T00:00:00+00:00");
    assert_eq!(t.bytes_transferred, 42);
    assert!(t.user_id.is_none());
    let far = tunnel_from_row("a".into(), "b".into(), "c".into(), 70000, "x".into(), i64::MAX, -1);
    assert_eq!(far.created_at_iso, "");
    assert_eq!(far.local_port, 70000u32 as u16);
    assert_eq!(far.bytes_transferred, u64::MAX);
    assert!(matches!(subdomain_conflict_result(1, "s"), Err(CourierError::SubdomainConflict(ref m)) if m == "s"));
    assert!(subdomain_conflict_result(0, "s").is_ok());
    assert!(matches!(unique_subdomain_result(true, "s"), Err(CourierError::SubdomainConflict(ref m)) if m == "子域名 s 已被占用"));
    assert!(unique_subdomain_result(false, "s").is_ok());
    assert!(matches!(tunnel_or_not_found(None, "tun_X"), Err(CourierError::TunnelNotFound(ref m)) if m == "tun_X"));
    assert_eq!(database_url(":memory:"), "sqlite::memory:");
    assert_eq!(database_url("data/t.db"), "sqlite:data/t.db");
    let status = tunnel_status(&t, "example.com");
    assert_eq!(status.public_url, "https://sub.example.com");
    assert_eq!(status.connected_at, "1970-01-01T00:00:00+00:00");
    let list = ListTunnelsResponse::new(vec![t.clone(), t]);
    assert_eq!(list.total, 2);
}

#[test]
fn access_log_files() {
    assert_eq!(log_file_name("2026-04-20"), "access-2026-04-20.log");
    assert_eq!(log_file_date("access-2026-04-20.log"), Some("2026-04-20".to_string()));
    assert_eq!(log_file_date("other.log"), None);
    assert!(is_expired_log_file("access-2026-04-12.log", (2026, 4, 13)));
    assert!(!is_expired_log_file("access-2026-04-13.log", (2026, 4, 13)));
    assert!(!is_expired_log_file("access-garbage.log", (2026, 4, 13)));
    assert!(!is_expired_log_file("notes-2020-01-01.log", (2026, 4, 13)));
    assert!(needs_rotation((2026, 4, 21), (2026, 4, 20)));
    assert!(!needs_rotation((2026, 4, 20), (2026, 4, 20)));
    match http_request_entry("GET", "/hello", 200, 42, "2026-04-20T10:00:00Z") {
        LogEntry::HttpRequest { tunnel_id, method, status, .. } => {
            assert_eq!((tunnel_id.as_str(), method.as_str(), status), ("", "GET", 200));
        }
        _ => panic!("expected HttpRequest"),
    }
}

#[test]
fn unmatched_requests_go_to_the_local_service() {
    assert_eq!(proxy_target_url("/docs/index.html"), "http://127.0.0.1:8080/docs/index.html");
    assert_eq!(proxy_target_url("/"), "http://127.0.0.1:8080/");
}

#[test]
fn never_expiring_token_is_admitted() {
    let token = generate_token("admin".to_string(), u64::MAX / 3600, "pw").unwrap();
    let claims = validate_auth_token(&token, "pw").unwrap();
    assert_eq!(claims.exp, u64::MAX);
    assert_eq!(claims.sub, "admin");
    assert!(admit_subscriber(Some(&token), Some("pw")));
    assert!(!admit_subscriber(Some(&token), Some("other")));
}

#[test]
fn authorization_passes_on_the_validators_verdict() {
    match authorize(Some("Bearer "), "s") {
        Err(ApiError::Unauthorized(m)) => assert_eq!(m, "Empty auth token"),
        _ => panic!("expected 401"),
    }
    let other = generate_token("admin".to_string(), 24, "other").unwrap();
    let header = format!("Bearer {}", other);
    match authorize(Some(&header), "s") {
        Err(ApiError::Unauthorized(m)) => assert_eq!(m, validate_auth_token(&other, "s").unwrap_err()),
        _ => panic!("expected 401"),
    }
    let forever = generate_token("admin".to_string(), u64::MAX / 3600, "s").unwrap();
    let header = format!("Bearer {}", forever);
    let claims = authorize(Some(&header), "s").unwrap();
    assert_eq!(claims.sub, "admin");
    assert_eq!(claims.exp, u64::MAX);
}

#[test]
fn login_token_validates_to_admin() {
    let resp = login(&LoginRequest { password: Some("mysecret".to_string()) }, Some("mysecret")).unwrap();
    assert_eq!(resp.expires_in, 86400);
    let c = validate_auth_token(&resp.token, "mysecret").unwrap();
    assert_eq!(c.sub, "admin");
    assert_eq!(c.exp - c.iat, 24 * 3600);
    assert_eq!(c.jti, format!("jti_{}", c.iat));
}

#[test]
fn access_log_listing() {
    let empty = LogListResponse::new(Vec::new());
    assert_eq!(empty.total, 0);
    assert!(empty.logs.is_empty());
    let one = LogListResponse::new(vec![AccessLogRecord {
        courier_id: "tun_A".to_string(),
        remote_addr: "127.0.0.1".to_string(),
        path: "/".to_string(),
        status_code: 200,
        bytes_sent: 12,
        timestamp: 1,
    }]);
    assert_eq!(one.total, 1);
}

#[test]
fn token_payload_lists_claims_in_declaration_order() {
    let token = generate_token("admin".to_string(), 1, "s").unwrap();
    let payload = token.split('.').nth(1).unwrap();
    // `{"sub":` encoded in base64url
    assert!(payload.starts_with("eyJzdWIiOi"));
}
