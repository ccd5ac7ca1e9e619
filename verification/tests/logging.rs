use faucet_server::networking::IpAddress;
use faucet_server::server::logging::{
    backup_path, log_file_step, parse_faucet_event, FaucetLine, FaucetTracingLevel, HttpLogData,
    LogOption, StateData, FAUCET_EVENT_PREFIX,
};
use faucet_server::session::Uuid;

#[test]
fn log_option_display() {
    assert_eq!(LogOption::<u8>::Absent.to_string(), "-");
    assert_eq!(LogOption::Present(1u8).to_string(), "1");
}

#[test]
fn log_option_debug() {
    assert_eq!(LogOption::<u8>::Absent.debug_string(), r#""-""#);
    assert_eq!(LogOption::Present(1u8).debug_string(), "1");
}

#[test]
fn log_option_from_option() {
    assert!(LogOption::<u8>::from(None) == LogOption::Absent);
    assert!(LogOption::from(Some(1u8)) == LogOption::Present(1));
}

#[test]
fn log_option_display_large_number() {
    assert_eq!(LogOption::Present(255u8).to_string(), "255");
}

fn sample_log_data(user_agent: LogOption<Vec<u8>>, route: Option<&'static str>) -> HttpLogData {
    HttpLogData {
        state_data: StateData {
            uuid: Uuid::from_u128(7),
            ip: IpAddress::V4(0x7f00_0001),
            worker_route: route,
            worker_id: 1,
            target: "test",
        },
        method: "GET".to_string(),
        uri: "https://example.com/".to_string(),
        path: "/".to_string(),
        query: None,
        version: "HTTP/1.1".to_string(),
        status: 200,
        user_agent,
        elapsed: 5,
    }
}

#[test]
fn log_data_log() {
    let log_data = sample_log_data(LogOption::Present(b"test".to_vec()), None);
    assert_eq!(
        log_data.log_line("127.0.0.1"),
        r#"127.0.0.1 "GET https://example.com/ HTTP/1.1" 200 "test" 5"#
    );
}

#[test]
fn log_line_route_and_missing_user_agent() {
    let mut log_data = sample_log_data(LogOption::Absent, Some("/app//"));
    log_data.uri = "/page?x=1".to_string();
    log_data.status = -1;
    log_data.elapsed = -20;
    assert_eq!(
        log_data.log_line("::1"),
        r#"::1 "GET /app/page?x=1 HTTP/1.1" -1 "-" -20"#
    );
}

#[test]
fn log_line_escapes_user_agent() {
    let log_data = sample_log_data(LogOption::Present(b"a\"b\x80\tc".to_vec()), None);
    assert_eq!(
        log_data.log_line("1.2.3.4"),
        "1.2.3.4 \"GET https://example.com/ HTTP/1.1\" 200 \"a\\\"b\\x80\tc\" 5"
    );
}

#[test]
fn event_row_of_log_data() {
    let mut log_data = sample_log_data(LogOption::Present(b"agent".to_vec()), Some("/r"));
    log_data.query = Some(String::new());
    log_data.state_data.worker_id = usize::MAX;
    let row = log_data.to_event_row();
    assert!(row.query.is_none());
    assert_eq!(row.user_agent.as_deref(), Some("agent"));
    assert_eq!(row.worker_id, -1);
    assert_eq!(row.worker_route, Some("/r"));
    assert_eq!(row.http_version, "HTTP/1.1");
    assert_eq!(row.status, 200);

    let mut other = sample_log_data(LogOption::Present(vec![0x80]), None);
    other.query = Some("a=b".to_string());
    let row = other.to_event_row();
    assert_eq!(row.query.as_deref(), Some("a=b"));
    assert!(row.user_agent.is_none());
}

#[test]
fn tracing_level_names() {
    assert_eq!(FaucetTracingLevel::Error.as_str(), "error");
    assert_eq!(FaucetTracingLevel::Warn.as_str(), "warn");
    assert_eq!(FaucetTracingLevel::Info.as_str(), "info");
    assert_eq!(FaucetTracingLevel::Debug.as_str(), "debug");
    assert_eq!(FaucetTracingLevel::Trace.as_str(), "trace");
}

#[test]
fn parse_output_line() {
    match parse_faucet_event("hello world\n\n") {
        FaucetLine::Output(o) => assert_eq!(o, "hello world"),
        _ => panic!("expected output"),
    }
}

#[test]
fn parse_event_line() {
    let line = format!("{} {{\"a\": 1}}  \n", FAUCET_EVENT_PREFIX);
    match parse_faucet_event(&line) {
        FaucetLine::Event { raw, json } => {
            assert_eq!(raw, " {\"a\": 1}  ");
            assert_eq!(json, "{\"a\": 1}");
        }
        _ => panic!("expected an event"),
    }
}

#[test]
fn log_file_rotation() {
    assert_eq!(log_file_step(10, 5, Some(20)), (15, false));
    assert_eq!(log_file_step(15, 5, Some(20)), (20, false));
    assert_eq!(log_file_step(20, 1, Some(20)), (0, true));
    assert_eq!(log_file_step(20, 1, None), (21, false));
    assert_eq!(backup_path("/var/log/faucet.log"), "/var/log/faucet.log.bak");
}
