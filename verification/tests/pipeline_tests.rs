use event_source::config::KafkaConfig;
use event_source::pipeline::Checkpoints;
use event_source::pipeline::LogAction;
use event_source::pipeline::LogEvent;
use event_source::pipeline::LogPipeline;
use event_source::pipeline::SocketAction;
use event_source::pipeline::SocketEvent;
use event_source::pipeline::basic_auth_header;
use event_source::pipeline::kafka_client_properties;
use event_source::pipeline::socket_on_event;
use event_source::pipeline::socket_url;

#[test]
fn test_checkpoints_latest_wins() {
    let mut c = Checkpoints::new();
    assert_eq!(c.stored_offset(0), None);
    c.store(0, 10);
    c.store(1, 5);
    c.store(0, 42);
    assert_eq!(c.stored_offset(0), Some(42));
    assert_eq!(c.stored_offset(1), Some(5));
    assert_eq!(c.stored_offset(2), None);
}

#[test]
fn test_log_decode_failure_skips() {
    // Three messages; message 2 fails to decode, 1 and 3 forward: the final
    // stored offset is message 3's, and the undecodable one neither moves
    // the checkpoint nor terminates the pipeline.
    let mut p = LogPipeline::new();
    assert_eq!(
        p.on_event(LogEvent::Forwarded { partition: 0, offset: 1 }),
        LogAction::StoreOffset { partition: 0, offset: 1 }
    );
    assert_eq!(p.on_event(LogEvent::DecodeFailed), LogAction::Continue);
    assert!(p.running);
    assert_eq!(p.checkpoints.stored_offset(0), Some(1));
    assert_eq!(
        p.on_event(LogEvent::Forwarded { partition: 0, offset: 3 }),
        LogAction::StoreOffset { partition: 0, offset: 3 }
    );
    assert!(p.running);
    assert_eq!(p.checkpoints.stored_offset(0), Some(3));
}

#[test]
fn test_log_exhausted_retries_terminate_without_store() {
    // Message 1 forwards (offset stored); message 2 exhausts its retries:
    // the pipeline terminates with message 1's offset still the last one
    // stored, so message 2 is redelivered after a restart.
    let mut p = LogPipeline::new();
    assert_eq!(
        p.on_event(LogEvent::Forwarded { partition: 0, offset: 1 }),
        LogAction::StoreOffset { partition: 0, offset: 1 }
    );
    assert_eq!(p.on_event(LogEvent::ForwardFailed), LogAction::Terminate);
    assert!(!p.running);
    assert_eq!(p.checkpoints.stored_offset(0), Some(1));
}

#[test]
fn test_log_receive_error_terminates() {
    let mut p = LogPipeline::new();
    assert_eq!(p.on_event(LogEvent::ReceiveError), LogAction::Terminate);
    assert!(!p.running);
}

#[test]
fn test_log_store_failure_terminates() {
    let mut p = LogPipeline::new();
    assert_eq!(
        p.on_event(LogEvent::Forwarded { partition: 2, offset: 7 }),
        LogAction::StoreOffset { partition: 2, offset: 7 }
    );
    assert_eq!(p.on_event(LogEvent::StoreFailed), LogAction::Terminate);
    assert!(!p.running);
}

#[test]
fn test_socket_absorbs_everything() {
    // A non-JSON frame is ignored and the next valid frame still forwarded;
    // a send failure on one frame does not stop the loop either.
    assert_eq!(socket_on_event(SocketEvent::DecodeFailed), SocketAction::Continue);
    assert_eq!(socket_on_event(SocketEvent::Forwarded), SocketAction::Continue);
    assert_eq!(socket_on_event(SocketEvent::ForwardFailed), SocketAction::Continue);
    assert_eq!(socket_on_event(SocketEvent::Forwarded), SocketAction::Continue);
    assert_eq!(socket_on_event(SocketEvent::ControlFrame), SocketAction::Continue);
}

#[test]
fn test_socket_receive_error_terminates() {
    assert_eq!(socket_on_event(SocketEvent::ReceiveError), SocketAction::Terminate);
}

#[test]
fn test_basic_auth_header() {
    let h = basic_auth_header(&Some("user".to_string()), &Some("token".to_string()));
    assert_eq!(h, Some("Basic dXNlcjp0b2tlbg==".to_string()));
    assert_eq!(basic_auth_header(&None, &None), None);
    // A lone user still produces a header over "user:".
    let h = basic_auth_header(&Some("user".to_string()), &None);
    assert_eq!(h, Some("Basic dXNlcjo=".to_string()));
}

#[test]
fn test_socket_url() {
    assert_eq!(socket_url("wss://host/ws", "app"), "wss://host/ws/app".to_string());
}

#[test]
fn test_kafka_client_properties() {
    let cfg = KafkaConfig {
        topic: "topic".to_string(),
        bootstrap_servers: "bootstrap:9091".to_string(),
        properties: vec![("foo_bar".to_string(), "baz".to_string())],
    };
    let props = kafka_client_properties(&cfg);
    assert_eq!(
        props,
        vec![
            ("bootstrap.servers".to_string(), "bootstrap:9091".to_string()),
            ("foo.bar".to_string(), "baz".to_string()),
            ("enable.auto.commit".to_string(), "true".to_string()),
            ("auto.commit.interval.ms".to_string(), "5000".to_string()),
            ("enable.auto.offset.store".to_string(), "false".to_string()),
        ]
    );
}
