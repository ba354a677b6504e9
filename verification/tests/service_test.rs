use greet::addr::ListenAddress;
use greet::http_api::health_check_handler;
use greet::http_api::health_json;
use greet::http_api::http_service_router;
use greet::http_api::HealthStatus;
use greet::json::encode_string_object;
use greet::readiness::ProbeDecision;
use greet::readiness::ReadinessProbe;
use greet::rpc::parse_greet_request;
use greet::rpc::GreetRequest;
use greet::rpc::MyGreeter;
use greet::supervisor::ConfigError;
use greet::supervisor::ServerId;
use greet::supervisor::ServerOutcome;
use greet::supervisor::Supervisor;
use greet::supervisor::SupervisorAction;
use greet::supervisor::SupervisorPhase;
use greet::supervisor::TerminationReason;

#[test]
fn test_health_endpoint_ok() {
    let reply = http_service_router("GET", "/health");
    assert_eq!(reply.code, 200);
    assert_eq!(reply.content_type.as_deref(), Some("application/json"));
    assert_eq!(reply.body, b"{\"status\":\"UP\"}".to_vec());
}

#[test]
fn test_health_endpoint_not_found() {
    let reply = http_service_router("GET", "/nonexistent_path");
    assert_eq!(reply.code, 404);
    assert!(reply.content_type.is_none());
    assert_eq!(reply.body, b"404 Not Found".to_vec());
}

#[test]
fn test_say_hello() {
    let greeter = MyGreeter::default();
    let reply = greeter.say_hello(GreetRequest {});
    assert_eq!(reply.message, "hello");
}

#[test]
fn health_handler_is_idempotent() {
    let first = health_check_handler();
    let second = health_check_handler();
    assert_eq!(first.code, second.code);
    assert_eq!(first.body, second.body);
    assert_eq!(first.content_type, second.content_type);
    assert_eq!(first.body, b"{\"status\":\"UP\"}".to_vec());
}

#[test]
fn health_json_serializes_the_payload() {
    let payload = HealthStatus { status: String::from("UP") };
    assert_eq!(health_json(&payload), b"{\"status\":\"UP\"}".to_vec());
}

#[test]
fn router_ignores_method_on_other_paths() {
    let reply = http_service_router("POST", "/health/extra");
    assert_eq!(reply.code, 404);
    assert_eq!(reply.body, b"404 Not Found".to_vec());
    let reply = http_service_router("PUT", "/");
    assert_eq!(reply.code, 404);
}

#[test]
fn router_requires_get_on_health() {
    let reply = http_service_router("POST", "/health");
    assert_eq!(reply.code, 404);
    assert_eq!(reply.body, b"404 Not Found".to_vec());
}

#[test]
fn say_hello_many_calls_all_agree() {
    let greeter = MyGreeter::new();
    let mut replies = Vec::new();
    for _ in 0..50 {
        replies.push(greeter.say_hello(GreetRequest {}));
    }
    assert_eq!(replies.len(), 50);
    for reply in replies {
        assert_eq!(reply.message, "hello");
    }
}

#[test]
fn empty_request_wire_forms_are_accepted() {
    assert!(parse_greet_request(b"").is_some());
    assert!(parse_greet_request(b"{}").is_some());
    assert!(parse_greet_request(b" \t\r\n").is_some());
    assert!(parse_greet_request(b"  {  }  ").is_some());
}

#[test]
fn non_empty_request_bodies_are_rejected() {
    assert!(parse_greet_request(b"{").is_none());
    assert!(parse_greet_request(b"}").is_none());
    assert!(parse_greet_request(b"[]").is_none());
    assert!(parse_greet_request(b"{\"name\":\"x\"}").is_none());
    assert!(parse_greet_request(b"{} trailing").is_none());
    assert!(parse_greet_request(b"null").is_none());
}

#[test]
fn json_escapes_special_bytes() {
    let body = encode_string_object("k", "a\"b\\c\nd");
    assert_eq!(body, b"{\"k\":\"a\\\"b\\\\c\\nd\"}".to_vec());
}

#[test]
fn json_escapes_control_bytes_as_unicode() {
    let body = encode_string_object("k", "\u{1}\u{1f}");
    assert_eq!(body, b"{\"k\":\"\\u0001\\u001f\"}".to_vec());
}

#[test]
fn json_keeps_plain_text() {
    let body = encode_string_object("message", "hello");
    assert_eq!(body, b"{\"message\":\"hello\"}".to_vec());
}

#[test]
fn parse_accepts_valid_hosts() {
    let addr = ListenAddress::parse("0.0.0.0", 50051).unwrap();
    assert_eq!(addr.octets, [0, 0, 0, 0]);
    assert_eq!(addr.port, 50051);

    let addr = ListenAddress::parse("127.0.0.1", 8080).unwrap();
    assert_eq!(addr.octets, [127, 0, 0, 1]);
    assert_eq!(addr.port, 8080);

    let addr = ListenAddress::parse("255.255.255.255", 0).unwrap();
    assert_eq!(addr.octets, [255, 255, 255, 255]);
    assert_eq!(addr.port, 0);
}

#[test]
fn parse_rejects_invalid_hosts() {
    assert!(ListenAddress::parse("", 1).is_none());
    assert!(ListenAddress::parse("256.0.0.1", 1).is_none());
    assert!(ListenAddress::parse("1.2.3", 1).is_none());
    assert!(ListenAddress::parse("1.2.3.4.5", 1).is_none());
    assert!(ListenAddress::parse("01.2.3.4", 1).is_none());
    assert!(ListenAddress::parse("1.2.3.4 ", 1).is_none());
    assert!(ListenAddress::parse("a.b.c.d", 1).is_none());
    assert!(ListenAddress::parse("1..2.3", 1).is_none());
    assert!(ListenAddress::parse("localhost", 1).is_none());
}

#[test]
fn supervisor_runs_both_servers_after_valid_config() {
    let mut supervisor = Supervisor::new();
    assert_eq!(supervisor.phase, SupervisorPhase::Configuring);
    let configured = supervisor.configure("127.0.0.1", 50051, "127.0.0.1", 8080);
    assert!(configured.is_ok());
    assert_eq!(supervisor.phase, SupervisorPhase::Starting);
    let (rpc_addr, http_addr) = supervisor.start();
    assert_eq!(supervisor.phase, SupervisorPhase::Running);
    assert_eq!(rpc_addr.octets, [127, 0, 0, 1]);
    assert_eq!(rpc_addr.port, 50051);
    assert_eq!(http_addr.octets, [127, 0, 0, 1]);
    assert_eq!(http_addr.port, 8080);
}

#[test]
fn supervisor_rejects_bad_rpc_host() {
    let mut supervisor = Supervisor::new();
    let configured = supervisor.configure("not-an-address", 50051, "127.0.0.1", 8080);
    assert_eq!(configured, Err(ConfigError::BadRpcHost));
    assert_eq!(supervisor.phase, SupervisorPhase::Terminated);
    assert!(supervisor.is_failure());
}

#[test]
fn supervisor_rejects_bad_http_host() {
    let mut supervisor = Supervisor::new();
    let configured = supervisor.configure("127.0.0.1", 50051, "999.0.0.1", 8080);
    assert_eq!(configured, Err(ConfigError::BadHttpHost));
    assert_eq!(supervisor.phase, SupervisorPhase::Terminated);
    assert!(supervisor.is_failure());
}

#[test]
fn bind_collision_terminates_with_failure() {
    let mut supervisor = Supervisor::new();
    supervisor.configure("127.0.0.1", 50051, "127.0.0.1", 8080).unwrap();
    supervisor.start();
    let action = supervisor.on_server_stopped(
        ServerId::Http,
        ServerOutcome::ExitedWithError(String::from("address already in use")),
    );
    assert_eq!(action, SupervisorAction::CancelPeer(ServerId::Rpc));
    assert_eq!(supervisor.phase, SupervisorPhase::Terminated);
    assert!(supervisor.is_failure());
    match supervisor.reason {
        Some(TerminationReason::FirstStop(ServerId::Http, ServerOutcome::ExitedWithError(e))) => {
            assert_eq!(e, "address already in use");
        }
        _ => panic!("expected the bind error as the first stop"),
    }
}

#[test]
fn first_outcome_wins_over_later_events() {
    let mut supervisor = Supervisor::new();
    supervisor.configure("0.0.0.0", 50051, "0.0.0.0", 8080).unwrap();
    supervisor.start();
    let first = supervisor.on_server_stopped(
        ServerId::Rpc,
        ServerOutcome::ExitedWithError(String::from("transport error")),
    );
    assert_eq!(first, SupervisorAction::CancelPeer(ServerId::Http));
    let second = supervisor.on_server_stopped(ServerId::Http, ServerOutcome::ExitedClean);
    assert_eq!(second, SupervisorAction::Nothing);
    match &supervisor.reason {
        Some(TerminationReason::FirstStop(ServerId::Rpc, ServerOutcome::ExitedWithError(e))) => {
            assert_eq!(e.as_str(), "transport error");
        }
        _ => panic!("the first outcome must stay recorded"),
    }
    assert!(supervisor.is_failure());
}

#[test]
fn clean_first_stop_is_not_a_failure() {
    let mut supervisor = Supervisor::new();
    supervisor.configure("0.0.0.0", 1, "0.0.0.0", 2).unwrap();
    supervisor.start();
    let action = supervisor.on_server_stopped(ServerId::Rpc, ServerOutcome::ExitedClean);
    assert_eq!(action, SupervisorAction::CancelPeer(ServerId::Http));
    assert!(!supervisor.is_failure());
}

#[test]
fn probe_reports_ready_on_success() {
    let mut probe = ReadinessProbe::new(3);
    assert_eq!(probe.on_poll(false), ProbeDecision::RetryLater);
    assert_eq!(probe.on_poll(false), ProbeDecision::RetryLater);
    assert_eq!(probe.on_poll(true), ProbeDecision::Ready);
}

#[test]
fn probe_times_out_after_budget() {
    let mut probe = ReadinessProbe::new(2);
    assert_eq!(probe.on_poll(false), ProbeDecision::RetryLater);
    assert_eq!(probe.on_poll(false), ProbeDecision::RetryLater);
    assert_eq!(probe.on_poll(false), ProbeDecision::TimedOut);
}

#[test]
fn probe_with_no_budget_times_out_at_once() {
    let mut probe = ReadinessProbe::new(0);
    assert_eq!(probe.on_poll(false), ProbeDecision::TimedOut);
    let mut probe = ReadinessProbe::new(0);
    assert_eq!(probe.on_poll(true), ProbeDecision::Ready);
}

#[test]
fn full_scenario_over_both_endpoints() {
    let mut supervisor = Supervisor::new();
    supervisor.configure("0.0.0.0", 50051, "0.0.0.0", 8080).unwrap();
    let (rpc_addr, http_addr) = supervisor.start();
    assert_eq!(rpc_addr.port, 50051);
    assert_eq!(http_addr.port, 8080);

    let greeter = MyGreeter::new();
    let rpc_reply = greeter.say_hello(GreetRequest {});
    assert_eq!(rpc_reply.message, "hello");

    let health = http_service_router("GET", "/health");
    assert_eq!(health.code, 200);
    assert_eq!(health.body, b"{\"status\":\"UP\"}".to_vec());

    let missing = http_service_router("GET", "/nope");
    assert_eq!(missing.code, 404);
    assert_eq!(missing.body, b"404 Not Found".to_vec());
}
