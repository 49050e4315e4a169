use event_source::config::ConfigError;
use event_source::config::EndpointConfig;
use event_source::envelope::EventEnvelope;
use event_source::sender::AttemptOutcome;
use event_source::sender::FailureReason;
use event_source::sender::ScriptedSend;
use event_source::sender::SendDecision;
use event_source::sender::SendError;
use event_source::sender::Sender;
use event_source::sender::classify;

fn endpoint_with_retries(retries: usize) -> EndpointConfig {
    let mut e = EndpointConfig::default();
    e.retries = retries;
    e
}

fn sender_with_retries(retries: usize) -> Sender {
    Sender::new("http://localhost/sink".to_string(), endpoint_with_retries(retries)).unwrap()
}

#[test]
fn test_classify_families() {
    assert_eq!(classify(AttemptOutcome::Response(200)), Ok(()));
    assert_eq!(classify(AttemptOutcome::Response(204)), Ok(()));
    assert_eq!(
        classify(AttemptOutcome::Response(503)),
        Err(SendError::Temporary(FailureReason::Status(503)))
    );
    assert_eq!(
        classify(AttemptOutcome::Response(404)),
        Err(SendError::Permanent(FailureReason::Status(404)))
    );
    // Any other status family is conservatively permanent.
    assert_eq!(
        classify(AttemptOutcome::Response(302)),
        Err(SendError::Permanent(FailureReason::Status(302)))
    );
    assert_eq!(
        classify(AttemptOutcome::Response(100)),
        Err(SendError::Permanent(FailureReason::Status(100)))
    );
    assert_eq!(
        classify(AttemptOutcome::TransportError("timed out".to_string())),
        Err(SendError::Temporary(FailureReason::Transport("timed out".to_string())))
    );
    assert_eq!(
        classify(AttemptOutcome::EncodeError("bad envelope".to_string())),
        Err(SendError::Permanent(FailureReason::Encode("bad envelope".to_string())))
    );
}

#[test]
fn test_send_step() {
    let s = sender_with_retries(2);
    assert_eq!(s.send_step(1, Ok(())), SendDecision::Delivered);
    assert_eq!(
        s.send_step(1, Err(SendError::Permanent(FailureReason::Status(400)))),
        SendDecision::Dropped(FailureReason::Status(400))
    );
    assert_eq!(
        s.send_step(1, Err(SendError::Temporary(FailureReason::Status(500)))),
        SendDecision::RetryAfter(1000)
    );
    assert_eq!(
        s.send_step(2, Err(SendError::Temporary(FailureReason::Status(500)))),
        SendDecision::RetryAfter(1000)
    );
    assert_eq!(
        s.send_step(3, Err(SendError::Temporary(FailureReason::Status(500)))),
        SendDecision::GaveUp(3)
    );
}

#[test]
fn test_send_delivers_within_budget() {
    // Two temporary failures, then success: three calls, delivered.
    let s = sender_with_retries(5);
    let script = vec![
        AttemptOutcome::Response(500),
        AttemptOutcome::TransportError("connection refused".to_string()),
        AttemptOutcome::Response(200),
    ];
    assert_eq!(s.send_scripted(&script), ScriptedSend::Delivered { calls: 3 });
}

#[test]
fn test_send_drops_on_permanent() {
    // A 4xx drops the event after exactly one call, whatever would follow.
    let s = sender_with_retries(5);
    let script = vec![
        AttemptOutcome::Response(400),
        AttemptOutcome::Response(200),
        AttemptOutcome::Response(200),
    ];
    assert_eq!(
        s.send_scripted(&script),
        ScriptedSend::Dropped { calls: 1, reason: FailureReason::Status(400) }
    );
}

#[test]
fn test_send_gives_up_past_budget() {
    // retries = 2: three temporary failures exhaust the budget.
    let s = sender_with_retries(2);
    let script = vec![
        AttemptOutcome::Response(500),
        AttemptOutcome::Response(502),
        AttemptOutcome::Response(503),
        AttemptOutcome::Response(200),
    ];
    assert_eq!(s.send_scripted(&script), ScriptedSend::GaveUp { calls: 3 });
}

#[test]
fn test_send_idempotent_against_healthy_sink() {
    // The same envelope sent twice against an always-200 sink: success both
    // times, one call each, and the sender itself cannot change (it is only
    // ever borrowed immutably).
    let s = sender_with_retries(5);
    let envelope = EventEnvelope::new(
        "id-1".to_string(),
        "example.type".to_string(),
        "/source".to_string(),
    );
    let resend = envelope.clone();
    assert_eq!(envelope, resend);
    let script = vec![AttemptOutcome::Response(200)];
    assert_eq!(s.send_scripted(&script), ScriptedSend::Delivered { calls: 1 });
    assert_eq!(s.send_scripted(&script), ScriptedSend::Delivered { calls: 1 });
}

#[test]
fn test_send_starved_script() {
    let s = sender_with_retries(5);
    let script = vec![AttemptOutcome::Response(500)];
    assert_eq!(s.send_scripted(&script), ScriptedSend::Starved { calls: 1 });
}

#[test]
fn test_sender_new_rejects_bad_url() {
    let bad = Sender::new("not a url".to_string(), EndpointConfig::default());
    assert_eq!(bad, Err(ConfigError::InvalidValue("not a url".to_string())));
    let good = Sender::new("https://sink.example/events".to_string(), EndpointConfig::default());
    assert!(good.is_ok());
}

#[test]
fn test_effective_timeout() {
    let s = sender_with_retries(5);
    assert_eq!(s.effective_timeout_ms(), 5000);
    let mut e = EndpointConfig::default();
    e.timeout_ms = Some(1234);
    let s = Sender::new("http://localhost".to_string(), e).unwrap();
    assert_eq!(s.effective_timeout_ms(), 1234);
}
