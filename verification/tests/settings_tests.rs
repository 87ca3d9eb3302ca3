use collector::broker::{classify_connectivity, BrokerInfo, ConnectivityReport};
use collector::settings::Settings;
use collector::text::{bytes_eq, str_eq};

fn resolve_all_none() -> Settings {
    Settings::resolve(None, None, None, None, None, None, None, None)
}

#[test]
fn defaults_apply_when_nothing_is_given() {
    let s = resolve_all_none();
    assert_eq!(s.host, "127.0.0.1");
    assert_eq!(s.port, "8080");
    assert_eq!(s.bootstrap_servers, "localhost:9093");
    assert_eq!(s.message_timeout_ms, "5000");
    assert_eq!(s.delivery_timeout_ms, "5000");
    assert_eq!(s.request_timeout_ms, "5000");
    assert_eq!(s.socket_timeout_ms, "5000");
    assert_eq!(s.bind_addr(), "127.0.0.1:8080");
}

#[test]
fn public_access_changes_the_default_host() {
    let s = Settings::resolve(
        None,
        None,
        Some("true".to_string()),
        None,
        None,
        None,
        None,
        None,
    );
    assert_eq!(s.host, "0.0.0.0");
    let s = Settings::resolve(
        None,
        None,
        Some("false".to_string()),
        None,
        None,
        None,
        None,
        None,
    );
    assert_eq!(s.host, "127.0.0.1");
}

#[test]
fn an_explicit_host_wins_over_public_access() {
    let s = Settings::resolve(
        Some("10.0.0.7".to_string()),
        Some("9999".to_string()),
        Some("true".to_string()),
        None,
        None,
        None,
        None,
        None,
    );
    assert_eq!(s.host, "10.0.0.7");
    assert_eq!(s.bind_addr(), "10.0.0.7:9999");
}

#[test]
fn given_values_are_kept_verbatim() {
    let s = Settings::resolve(
        None,
        None,
        None,
        Some("k1:9092,k2:9092".to_string()),
        Some("100".to_string()),
        Some("200".to_string()),
        Some("300".to_string()),
        Some("400".to_string()),
    );
    assert_eq!(s.bootstrap_servers, "k1:9092,k2:9092");
    assert_eq!(s.message_timeout_ms, "100");
    assert_eq!(s.delivery_timeout_ms, "200");
    assert_eq!(s.request_timeout_ms, "300");
    assert_eq!(s.socket_timeout_ms, "400");
}

#[test]
fn metadata_with_brokers_reports_connected() {
    let brokers = vec![
        BrokerInfo { id: 1, host: "k1".to_string(), port: 9092 },
        BrokerInfo { id: 2, host: "k2".to_string(), port: 9093 },
    ];
    match classify_connectivity(Ok(brokers)) {
        ConnectivityReport::Connected { brokers } => {
            assert_eq!(brokers.len(), 2);
            assert_eq!(brokers[0].id, 1);
            assert_eq!(brokers[0].host, "k1");
            assert_eq!(brokers[0].port, 9092);
            assert_eq!(brokers[1].id, 2);
        }
        _ => panic!("brokers present means connected"),
    }
}

#[test]
fn metadata_with_no_brokers_is_degraded() {
    assert!(matches!(
        classify_connectivity(Ok(Vec::new())),
        ConnectivityReport::NoBrokers
    ));
}

#[test]
fn failed_metadata_query_is_degraded_with_the_error() {
    match classify_connectivity(Err("timed out".to_string())) {
        ConnectivityReport::Unreachable { error } => assert_eq!(error, "timed out"),
        _ => panic!("a failed query reports unreachable"),
    }
}

#[test]
fn byte_and_string_equality_agree_with_std() {
    assert!(bytes_eq(b"abc", b"abc"));
    assert!(!bytes_eq(b"abc", b"abd"));
    assert!(!bytes_eq(b"abc", b"ab"));
    assert!(bytes_eq(b"", b""));
    assert!(str_eq("", ""));
    assert!(str_eq("héllo", "héllo"));
    assert!(!str_eq("héllo", "hello"));
    assert!(!str_eq("/a", "/a/"));
}
