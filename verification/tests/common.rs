use connected_home::common::cli::{secret_source, Args, SecretSource};
use connected_home::common::config::{parse_level_filter, LevelFilter, ServerConfig, TracingConfig};
use connected_home::common::error::ConnectedHomeError;
use connected_home::common::mqtt::{MqttConfig, QoS};
use connected_home::common::probes::{healthy_reply, ready_reply};
use connected_home::common::repo::PostgresConfig;
use connected_home::common::rest::{ConnectedHomeApiError, ConnectedHomeApiErrorBody};
use connected_home::common::task::{
    completion_log, graceful_shutdown_seconds, initial_state, launch_plan, step, LaunchPlan, LogLevel,
    Phase, ShutdownAction, ShutdownEvent, ShutdownType, TaskEnd, TaskRegistry,
};

#[test]
fn api_error_bodies() {
    let e = ConnectedHomeApiError::new(404, Some("missing".to_string()));
    assert_eq!(e.status_code(), 404);
    assert_eq!(e.body().to_string(), "missing");
    assert_eq!(ConnectedHomeApiErrorBody::new(None).to_string(), "No error message");
    let d = ConnectedHomeApiError::default();
    assert_eq!((d.status_code(), d.body().error().clone()), (200, None));
}

#[test]
fn errors_report_internal_server_error() {
    assert_eq!(ConnectedHomeError::Mqtt.status_code(), 500);
    assert_eq!(ConnectedHomeError::UserAlreadyExists("x".to_string()).status_code(), 500);
}

#[test]
fn level_filters() {
    assert_eq!(parse_level_filter("OFF"), Ok(LevelFilter::OFF));
    assert_eq!(parse_level_filter("ERROR"), Ok(LevelFilter::ERROR));
    assert_eq!(parse_level_filter("WARN"), Ok(LevelFilter::WARN));
    assert_eq!(parse_level_filter("INFO"), Ok(LevelFilter::INFO));
    assert_eq!(parse_level_filter("DEBUG"), Ok(LevelFilter::DEBUG));
    assert_eq!(parse_level_filter("TRACE"), Ok(LevelFilter::TRACE));
    assert_eq!(parse_level_filter("info"), Err("unknown log level: info".to_string()));
    assert_eq!(parse_level_filter(""), Err("unknown log level: ".to_string()));
}

#[test]
fn addresses() {
    let s = ServerConfig { port: 8080, listen_address: "0.0.0.0".to_string() };
    assert_eq!(s.bind_address(), "0.0.0.0:8080");
    let t = TracingConfig {
        level: LevelFilter::INFO,
        tempo_url: "http://tempo".to_string(),
        tempo_port: 4317,
        service_name: "svc".to_string(),
    };
    assert_eq!(t.endpoint(), "http://tempo:4317");
}

fn pg(port: u32, host: &str) -> PostgresConfig {
    PostgresConfig {
        hostname: host.to_string(),
        port,
        database: "users".to_string(),
        max_connections: 5,
        username: "admin".to_string(),
        password: "pw".to_string(),
    }
}

#[test]
fn postgres_urls() {
    assert_eq!(pg(5432, "db").url().unwrap(), "postgres://admin:pw@db:5432/users");
    assert!(matches!(pg(70000, "db").url(), Err(ConnectedHomeError::ParseUrl(_))));
    assert!(matches!(pg(5432, "d b").url(), Err(ConnectedHomeError::ParseUrl(_))));
    // The URL is written as `url` normalises it: dot segments leave the path.
    let mut dotted = pg(5432, "db");
    dotted.database = "old/../users".to_string();
    assert_eq!(dotted.url().unwrap(), "postgres://admin:pw@db:5432/users");
}

#[test]
fn mqtt_settings() {
    let c = MqttConfig {
        host: "broker".to_string(),
        port: 1883,
        username: "u".to_string(),
        password: "p".to_string(),
        client_id: "consumer".to_string(),
        topics: vec!["energy".to_string(), "water".to_string()],
    };
    let o = c.options();
    assert_eq!((o.client_id.as_str(), o.broker_host.as_str(), o.broker_port), ("consumer", "broker", 1883));
    assert_eq!(o.credentials, Some(("u".to_string(), "p".to_string())));
    assert_eq!(o.keep_alive_secs, 5);
    let f = c.sub_filters();
    assert_eq!(f.len(), 2);
    assert_eq!((f[1].path.as_str(), f[1].qos), ("water", QoS::AtLeastOnce));
}

#[test]
fn secrets() {
    assert!(matches!(secret_source("file:/run/pw"), SecretSource::File(p) if p == "/run/pw"));
    assert!(matches!(secret_source("hunter2"), SecretSource::Const(s) if s == "hunter2"));
    assert!(matches!(secret_source("File:x"), SecretSource::Const(s) if s == "File:x"));
    assert_eq!(Args::new(3).config, 3);
}

#[test]
fn probes() {
    let r = ready_reply(true);
    assert_eq!((r.status, r.body.as_str()), (200, "READY"));
    assert_eq!(r.headers, vec![("X-Custom-Foo".to_string(), "Bar".to_string())]);
    assert_eq!(ready_reply(false).body, "NOT READY");
    assert_eq!(ready_reply(false).status, 503);
    assert_eq!(healthy_reply(true).body, "HEALTHY");
    assert_eq!((healthy_reply(false).status, healthy_reply(false).body.as_str()), (503, "NOT HEALTHY"));
}

#[test]
fn task_names_read_after_write() {
    let mut reg = TaskRegistry::new();
    assert_eq!(reg.retrieve_task_name(1), None);
    reg.store_task_name(1, "HTTP Server".to_string());
    reg.store_task_name(2, "Signal Catcher".to_string());
    assert_eq!(reg.retrieve_task_name(1), Some("HTTP Server".to_string()));
    reg.store_task_name(1, "renamed".to_string());
    assert_eq!(reg.retrieve_task_name(1), Some("renamed".to_string()));
    assert_eq!(reg.retrieve_task_name(2), Some("Signal Catcher".to_string()));
}

#[test]
fn task_launch_and_completion() {
    assert_eq!(graceful_shutdown_seconds(), 3);
    assert_eq!(launch_plan(ShutdownType::Integrated), LaunchPlan::AwaitTask);
    assert_eq!(launch_plan(ShutdownType::Manual), LaunchPlan::RaceWithShutdown);
    assert_eq!(completion_log(TaskEnd::Clean), (LogLevel::Info, "Task shut down cleanly".to_string()));
    assert_eq!(completion_log(TaskEnd::Failed), (LogLevel::Warn, "Task shut down with errors".to_string()));
    assert_eq!(completion_log(TaskEnd::Died), (LogLevel::Warn, "Task died".to_string()));
}

#[test]
fn shutdown_sequence() {
    let s = initial_state();
    assert_eq!(s.phase, Phase::AwaitingFirst);
    let (s, a) = step(s, ShutdownEvent::Joined(Some(TaskEnd::Failed)));
    assert_eq!(a, vec![ShutdownAction::Log(TaskEnd::Failed), ShutdownAction::Broadcast, ShutdownAction::JoinNext]);
    assert!(s.timer_armed);
    let (s, a) = step(s, ShutdownEvent::Joined(Some(TaskEnd::Clean)));
    assert_eq!(a, vec![ShutdownAction::Log(TaskEnd::Clean), ShutdownAction::JoinNext]);
    let (s, a) = step(s, ShutdownEvent::GraceElapsed);
    assert_eq!(a, vec![ShutdownAction::AbortAll, ShutdownAction::Broadcast, ShutdownAction::JoinNext]);
    let (s, a) = step(s, ShutdownEvent::GraceElapsed);
    assert!(a.is_empty());
    let (s, a) = step(s, ShutdownEvent::BroadcastFailed);
    assert_eq!(a, vec![ShutdownAction::ShutdownSet, ShutdownAction::JoinNext]);
    let (s, a) = step(s, ShutdownEvent::Joined(None));
    assert_eq!(a, vec![ShutdownAction::Stop]);
    assert_eq!(s.phase, Phase::Finished);
    let (s2, a) = step(s, ShutdownEvent::Joined(Some(TaskEnd::Died)));
    assert!(a.is_empty());
    assert_eq!(s2, s);
    let (_, a) = step(initial_state(), ShutdownEvent::Joined(None));
    assert_eq!(a, vec![ShutdownAction::Broadcast, ShutdownAction::JoinNext]);
}

#[test]
fn api_errors_answer_with_json_bodies() {
    let e = ConnectedHomeApiError::new(404, Some("missing".to_string()));
    assert_eq!(e.into_response(), (404, "{\"error\":\"missing\"}".to_string()));
    let quoted = ConnectedHomeApiError::new(400, Some("say \"hi\"".to_string()));
    assert_eq!(quoted.into_response(), (400, "{\"error\":\"say \\\"hi\\\"\"}".to_string()));
    assert_eq!(ConnectedHomeApiError::default().into_response(), (200, "{}".to_string()));
    assert_eq!(ConnectedHomeApiErrorBody::new(None).to_json(), "{}");
}

#[test]
fn json_escapes_control_characters() {
    let body = ConnectedHomeApiErrorBody::new(Some("a\nb\u{1f}\\/\u{7f}é".to_string()));
    assert_eq!(body.to_json(), "{\"error\":\"a\\nb\\u001f\\\\/\u{7f}é\"}");
}
