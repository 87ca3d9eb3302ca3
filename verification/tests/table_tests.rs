use collector::table::{ConfigError, EndpointRule, EndpointTable};

fn rule(path: &str, topic: &str, partition: i32) -> EndpointRule {
    EndpointRule {
        path: path.to_string(),
        kafka_topic: topic.to_string(),
        kafka_partition: partition,
    }
}

#[test]
fn build_succeeds_on_valid_rules() {
    let table = EndpointTable::build(vec![
        rule("/events", "events-raw", 0),
        rule("/metrics", "metrics-raw", 3),
    ])
    .unwrap();
    assert_eq!(table.len(), 2);
    let (topic, partition) = table.lookup("/events").unwrap();
    assert_eq!(topic, "events-raw");
    assert_eq!(partition, 0);
    let (topic, partition) = table.lookup("/metrics").unwrap();
    assert_eq!(topic, "metrics-raw");
    assert_eq!(partition, 3);
}

#[test]
fn rules_keep_their_configuration_order() {
    let table = EndpointTable::build(vec![
        rule("/events", "events-raw", 0),
        rule("/metrics", "metrics-raw", 3),
    ])
    .unwrap();
    assert_eq!(table.rule_at(0).path, "/events");
    assert_eq!(table.rule_at(0).kafka_topic, "events-raw");
    assert_eq!(table.rule_at(0).kafka_partition, 0);
    assert_eq!(table.rule_at(1).path, "/metrics");
}

#[test]
fn lookup_misses_unconfigured_path() {
    let table = EndpointTable::build(vec![rule("/events", "events-raw", 0)]).unwrap();
    assert!(table.lookup("/other").is_none());
    assert!(table.lookup("").is_none());
    assert!(table.lookup("/events/").is_none());
}

#[test]
fn build_succeeds_on_empty_rule_list() {
    let table = EndpointTable::build(Vec::new()).unwrap();
    assert_eq!(table.len(), 0);
    assert!(table.lookup("/anything").is_none());
}

#[test]
fn build_rejects_duplicate_path() {
    let err = EndpointTable::build(vec![rule("/a", "t1", 0), rule("/a", "t2", 1)]).unwrap_err();
    match err {
        ConfigError::DuplicatePath { ref path } => assert_eq!(path, "/a"),
        _ => panic!("expected a duplicate-path error"),
    }
    assert_eq!(err.message(), "Duplicate path: /a");
}

#[test]
fn build_rejects_empty_path() {
    let err = EndpointTable::build(vec![rule("", "topic", 0)]).unwrap_err();
    assert!(matches!(err, ConfigError::EmptyPath));
    assert_eq!(err.message(), "Endpoint path cannot be empty");
}

#[test]
fn build_rejects_empty_topic() {
    let err = EndpointTable::build(vec![rule("/x", "", 0)]).unwrap_err();
    match err {
        ConfigError::EmptyTopic { ref path } => assert_eq!(path, "/x"),
        _ => panic!("expected an empty-topic error"),
    }
    assert_eq!(err.message(), "Kafka topic for path /x cannot be empty");
}

#[test]
fn build_reports_first_offending_rule() {
    let err = EndpointTable::build(vec![
        rule("/ok", "topic", 0),
        rule("/bad", "", 1),
        rule("/ok", "topic", 2),
    ])
    .unwrap_err();
    match err {
        ConfigError::EmptyTopic { ref path } => assert_eq!(path, "/bad"),
        _ => panic!("the empty topic comes before the duplicate"),
    }
}

#[test]
fn empty_path_takes_precedence_over_empty_topic() {
    let err = EndpointTable::build(vec![rule("", "", 0)]).unwrap_err();
    assert!(matches!(err, ConfigError::EmptyPath));
}

#[test]
fn duplicate_detection_is_exact_match() {
    let table = EndpointTable::build(vec![
        rule("/a", "t", 0),
        rule("/a/", "t", 1),
        rule("/A", "t", 2),
    ])
    .unwrap();
    assert_eq!(table.len(), 3);
    assert_eq!(table.lookup("/a").unwrap().1, 0);
    assert_eq!(table.lookup("/a/").unwrap().1, 1);
    assert_eq!(table.lookup("/A").unwrap().1, 2);
}
