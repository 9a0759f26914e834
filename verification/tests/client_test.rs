use courier::config::{config_from_args, ClientConfig};
use courier::proxy::{proxy_step, IoResult, LocalProxy, ProxyAction, ProxyPhase, IO_TIMEOUT_SECS, PROXY_BUFFER_SIZE};
use courier::tunnel_manager::{
    calculate_backoff_delay, heartbeat_request, on_server_frame, remove_all_text, ServerFrame, TunnelManager, WaitOutcome,
};
use std::time::Duration;

fn sample_config() -> ClientConfig {
    ClientConfig {
        local_port: 3000,
        server_address: "ws://localhost:8080".to_string(),
        auth_token: "token123".to_string(),
        subdomain: String::new(),
        protocols: vec!["http".to_string()],
    }
}

#[test]
fn test_config_validation() {
    let config = ClientConfig {
        local_port: 3000,
        server_address: "ws://localhost:8080".to_string(),
        auth_token: "token123".to_string(),
        subdomain: String::new(),
        protocols: vec!["http".to_string()],
    };

    assert!(config.validate().is_ok());
}

#[test]
fn test_invalid_port() {
    let config = ClientConfig {
        local_port: 0,
        server_address: "ws://localhost:8080".to_string(),
        auth_token: "token123".to_string(),
        subdomain: String::new(),
        protocols: vec!["http".to_string()],
    };

    assert!(config.validate().is_err());
}

#[test]
fn config_test_empty_token() {
    let config = ClientConfig {
        local_port: 3000,
        server_address: "ws://localhost:8080".to_string(),
        auth_token: String::new(),
        subdomain: String::new(),
        protocols: vec!["http".to_string()],
    };

    assert!(config.validate().is_err());
}

#[test]
fn test_sample_config_generation() {
    let sample = ClientConfig::sample();
    assert!(sample.contains("local_port"));
    assert!(sample.contains("auth_token"));
}

#[test]
fn config_error_messages_in_order() {
    let mut c = sample_config();
    c.local_port = 0;
    c.auth_token = String::new();
    assert_eq!(c.validate().unwrap_err(), "Invalid local port: 0");
    let mut c = sample_config();
    c.auth_token = String::new();
    assert_eq!(c.validate().unwrap_err(), "Auth token cannot be empty");
    let mut c = sample_config();
    c.server_address = String::new();
    assert_eq!(c.validate().unwrap_err(), "Server address cannot be empty");
    let mut c = sample_config();
    c.subdomain = "-bad".to_string();
    assert_eq!(c.validate().unwrap_err(), "Invalid subdomain format: -bad");
    let mut c = sample_config();
    c.subdomain = "good-one".to_string();
    assert!(c.validate().is_ok());
}

#[test]
fn test_backoff_calculation() {
    assert_eq!(calculate_backoff_delay(0), 1000);
    assert_eq!(calculate_backoff_delay(1), 2000);
    assert_eq!(calculate_backoff_delay(2), 4000);
    assert_eq!(calculate_backoff_delay(3), 8000);
    assert_eq!(calculate_backoff_delay(4), 16000);
    assert_eq!(calculate_backoff_delay(5), 32000);
    assert_eq!(calculate_backoff_delay(6), 60000); // 超过最大值60000
}

#[test]
fn backoff_saturates_for_huge_attempts() {
    assert_eq!(calculate_backoff_delay(63), 60000);
    assert_eq!(calculate_backoff_delay(64), 60000);
    assert_eq!(calculate_backoff_delay(u32::MAX), 60000);
    let mut last = 0;
    for a in 0..80 {
        let d = calculate_backoff_delay(a);
        assert!(d >= last && d <= 60000 && d >= 1000);
        last = d;
    }
}

#[test]
fn test_courier_manager_creation() {
    let config = ClientConfig {
        local_port: 3000,
        server_address: "ws://localhost:8080".to_string(),
        auth_token: "test_token".to_string(),
        subdomain: String::new(),
        protocols: vec!["http".to_string()],
    };

    let manager = TunnelManager::new(config);
    assert!(manager.is_ok());
}

#[test]
fn manager_refuses_invalid_config_and_retries_with_backoff() {
    let mut c = sample_config();
    c.local_port = 0;
    assert_eq!(TunnelManager::new(c).err().unwrap(), "Invalid local port: 0");
    let mut m = TunnelManager::new(sample_config()).ok().unwrap();
    let expected = [1000, 2000, 4000, 8000, 16000, 32000, 60000, 60000, 60000, 60000];
    for delay in expected {
        assert_eq!(m.handle_error(), Ok(delay));
    }
    assert_eq!(m.handle_error(), Err("达到最大重试次数，放弃连接".to_string()));
    assert_eq!(m.handle_error(), Err("达到最大重试次数，放弃连接".to_string()));
}

#[test]
fn manager_builds_register_request_and_address() {
    let mut c = sample_config();
    c.subdomain = "mine".to_string();
    c.protocols = vec!["http".to_string(), "https".to_string()];
    c.server_address = "ws://relay.example.com:8080".to_string();
    let m = TunnelManager::new(c).ok().unwrap();
    let req = m.register_request();
    assert_eq!(req.auth_token, "token123");
    assert_eq!(req.local_port, 3000);
    assert_eq!(req.protocols, vec!["http".to_string(), "https".to_string()]);
    assert_eq!(req.subdomain, "mine");
    assert_eq!(m.tcp_address(), "relay.example.com:8080");
    let hb = heartbeat_request("tun_AB", 42);
    assert_eq!(hb.courier_id, "tun_AB");
    assert_eq!(hb.timestamp, 42);
}

#[test]
fn scheme_removal_matches_str_replace() {
    for s in ["wss://a:1", "ws://a:1", "ws://ws://x", "plain:80", "xws://y", "wwss://z", ""] {
        let expected = s.replace("ws://", "").replace("wss://", "");
        let once = remove_all_text(s, "ws://");
        let got = remove_all_text(&once, "wss://");
        assert_eq!(got, expected, "input {:?}", s);
    }
}

#[test]
fn waiting_for_tunnel_established() {
    assert!(matches!(on_server_frame(&ServerFrame::Text("tunnel_established".to_string())), WaitOutcome::Established));
    assert!(matches!(on_server_frame(&ServerFrame::Text("heartbeat_ack".to_string())), WaitOutcome::KeepWaiting));
    assert!(matches!(on_server_frame(&ServerFrame::NonText), WaitOutcome::KeepWaiting));
    match on_server_frame(&ServerFrame::Error("reset".to_string())) {
        WaitOutcome::Fail(m) => assert_eq!(m, "WebSocket error: reset"),
        _ => panic!("expected failure"),
    }
    match on_server_frame(&ServerFrame::Closed) {
        WaitOutcome::Fail(m) => assert_eq!(m, "服务器关闭了连接"),
        _ => panic!("expected failure"),
    }
    match on_server_frame(&ServerFrame::Malformed("expected value".to_string())) {
        WaitOutcome::Fail(m) => assert_eq!(m, "expected value"),
        _ => panic!("expected failure"),
    }
}

#[test]
fn test_local_proxy_creation() {
    let proxy = LocalProxy::new(3000, "ws://localhost:8080".to_string());
    assert_eq!(proxy.listen_port(), 3000);
}

#[test]
fn test_proxy_address_parsing() {
    let proxy = LocalProxy::new(5000, "ws://example.com:8080".to_string());
    assert!(proxy.listen_address().starts_with("127.0.0.1:"));
    assert_eq!(proxy.listen_port(), 5000);
    assert_eq!(proxy.listen_address(), "127.0.0.1:5000");
}

#[test]
fn local_proxy_addresses() {
    let proxy = LocalProxy::new(3000, "ws://localhost:8080".to_string());
    assert_eq!(proxy.listen_port(), 3000);
    assert_eq!(proxy.listen_address(), "127.0.0.1:3000");
    assert_eq!(proxy.server_addr(), "ws://localhost:8080");
}

#[test]
fn proxy_round_trip_and_endings() {
    let s = proxy_step(ProxyPhase::ReadClient, IoResult::Done(120));
    assert_eq!(s.phase, ProxyPhase::ConnectServer(120));
    assert!(matches!(s.action, ProxyAction::ConnectServer));
    let s = proxy_step(s.phase, IoResult::Done(0));
    assert_eq!(s.phase, ProxyPhase::WriteServer(120));
    assert!(matches!(s.action, ProxyAction::WriteServer(120)));
    let s = proxy_step(s.phase, IoResult::Done(120));
    assert_eq!(s.phase, ProxyPhase::ReadServer);
    let s = proxy_step(s.phase, IoResult::Done(300));
    assert!(matches!(s.action, ProxyAction::WriteClient(300)));
    let s = proxy_step(s.phase, IoResult::Done(300));
    assert_eq!(s.phase, ProxyPhase::ReadClient);
    let s = proxy_step(s.phase, IoResult::Done(0));
    assert_eq!(s.phase, ProxyPhase::Closed);
    assert!(matches!(s.action, ProxyAction::Finish));

    let s = proxy_step(ProxyPhase::ReadClient, IoResult::TimedOut);
    match s.action {
        ProxyAction::Fail(m) => assert_eq!(m, "Client read timeout"),
        _ => panic!("expected failure"),
    }
    match proxy_step(ProxyPhase::WriteServer(5), IoResult::TimedOut).action {
        ProxyAction::Fail(m) => assert_eq!(m, "Server write timeout"),
        _ => panic!("expected failure"),
    }
    match proxy_step(ProxyPhase::ReadServer, IoResult::TimedOut).action {
        ProxyAction::Fail(m) => assert_eq!(m, "Server read timeout"),
        _ => panic!("expected failure"),
    }
    match proxy_step(ProxyPhase::WriteClient(5), IoResult::TimedOut).action {
        ProxyAction::Fail(m) => assert_eq!(m, "Client write timeout"),
        _ => panic!("expected failure"),
    }
    match proxy_step(ProxyPhase::ConnectServer(5), IoResult::Failed("refused".to_string())).action {
        ProxyAction::Fail(m) => assert_eq!(m, "refused"),
        _ => panic!("expected failure"),
    }
    let s = proxy_step(ProxyPhase::ReadServer, IoResult::Done(0));
    assert_eq!(s.phase, ProxyPhase::Closed);
    assert!(matches!(s.action, ProxyAction::Finish));
}

#[test]
fn test_large_file_transfer() {
    // 创建一个 50KB 的测试数据（模拟大文件）
    let large_data = vec![0u8; 50 * 1024];

    // 验证 64KB 缓冲区可以容纳 50KB 数据
    assert!(large_data.len() <= 65536, "64KB 缓冲区应该能容纳 50KB 文件");

    // 验证缓冲区大小正确
    let buffer = vec![0u8; 65536];
    assert_eq!(buffer.len(), 65536, "缓冲区大小应该是 65536 字节");
    assert_eq!(PROXY_BUFFER_SIZE, 65536);
}

#[test]
fn test_buffer_size_impact() {
    let old_buffer_size = 4096;
    let new_buffer_size = 65536;

    // 缓冲区增加 16 倍（4KB → 64KB）
    let increase_ratio = new_buffer_size as f64 / old_buffer_size as f64;
    assert_eq!(increase_ratio, 16.0, "缓冲区大小应该增加 16 倍");

    // 理论上吞吐量提升至少 15%（在网络 I/O 优化的前提下）
    assert!(increase_ratio > 1.15, "缓冲区应该提升吞吐量 >= 15%");
}

#[test]
fn test_persistent_connection() {
    // 模拟连接计数
    let connections_old = 5; // 单次连接需要 5 个 TCP 连接
    let connections_new = 1; // 持久连接只需要 1 个 TCP 连接

    let reduction = (1.0 - connections_new as f64 / connections_old as f64) * 100.0;
    assert!(reduction >= 50.0, "持久连接应该减少 >= 50% 的连接建立次数");
}

#[test]
fn test_multiple_requests_latency() {
    // 假设每个 TCP 连接建立延迟为 100ms
    let connection_latency_ms = 100.0;

    // 单次连接场景：5 个请求需要 5 个连接
    let single_latency = 5.0 * connection_latency_ms; // 500ms

    // 持久连接场景：5 个请求只需要 1 个连接
    let persistent_latency = 1.0 * connection_latency_ms; // 100ms

    let improvement_percent = ((single_latency - persistent_latency) / single_latency) * 100.0;
    assert!(improvement_percent >= 50.0, "延迟应该降低 >= 50%");
    assert_eq!(improvement_percent as u32, 80, "5 个请求应该降低 80% 的延迟");
}

#[test]
fn test_connection_closure() {
    // n == 0 表示 EOF（End of File）
    let n = 0;
    assert_eq!(n, 0, "EOF 应该表示为 0 字节");
}

#[test]
fn test_read_timeout() {
    let read_timeout = Duration::from_secs(IO_TIMEOUT_SECS);
    assert_eq!(read_timeout.as_secs(), 30, "读超时应该是 30 秒");
}

#[test]
fn test_write_timeout() {
    let write_timeout = Duration::from_secs(IO_TIMEOUT_SECS);
    assert_eq!(write_timeout.as_secs(), 30, "写超时应该是 30 秒");
}

#[test]
fn test_timeout_resilience() {
    let timeout_duration = Duration::from_secs(30);
    let very_long_duration = Duration::from_secs(60);

    // 30 秒超时 < 60 秒等待
    assert!(timeout_duration < very_long_duration, "30 秒超时能保护资源");
}

#[test]
fn test_timeout_connection_closure() {
    let timeout_ms = 30_000; // 30 秒
    let slow_client_delay_ms = 60_000; // 慢速客户端延迟 60 秒

    // 超时应该在慢速客户端之前发生
    assert!(timeout_ms < slow_client_delay_ms, "30 秒超时应该阻止 60 秒延迟");
}

#[test]
fn test_timeout_with_persistent_connection() {
    let request_interval_ms = 1_000; // 每个请求间隔 1 秒
    let num_requests = 5;
    let total_time_ms = request_interval_ms * num_requests;
    let timeout_ms = 30_000; // 30 秒超时

    // 5 个请求总时间（5 秒）< 超时时间（30 秒）
    assert!(total_time_ms < timeout_ms, "快速连续请求应该不会超时");
}

#[test]
fn command_line_configuration() {
    let c = config_from_args(Some(3000), Some("ws://example.com:8080".to_string()), Some("mytoken".to_string()), None)
        .unwrap();
    assert_eq!(c.local_port, 3000);
    assert_eq!(c.server_address, "ws://example.com:8080");
    assert_eq!(c.auth_token, "mytoken");
    assert_eq!(c.subdomain, "");
    assert_eq!(c.protocols, vec!["http".to_string()]);

    let d = config_from_args(Some(8000), None, Some("t".to_string()), Some("app".to_string())).unwrap();
    assert_eq!(d.server_address, "ws://localhost:8080");
    assert_eq!(d.subdomain, "app");

    assert_eq!(
        config_from_args(None, None, None, None).unwrap_err(),
        "必须指定本地端口 (--local-port 或配置文件)"
    );
    assert_eq!(
        config_from_args(Some(3000), None, None, None).unwrap_err(),
        "必须指定认证令牌 (--token 或配置文件)"
    );
}
