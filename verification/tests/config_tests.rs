use event_source::config::Config;
use event_source::config::ConfigError;
use event_source::config::EndpointConfig;
use event_source::config::HttpMethod;
use event_source::config::KafkaConfig;
use event_source::config::Mode;
use event_source::config::WebsocketConfig;
use event_source::config::default_error_delay;
use event_source::config::default_method;
use event_source::config::default_retries;

fn pairs(kv: &[(&str, &str)]) -> Vec<(String, String)> {
    kv.iter().map(|(k, v)| (k.to_string(), v.to_string())).collect()
}

#[test]
fn test_cfg_kafka() {
    let env = pairs(&[
        ("MODE", "kafka"),
        ("BOOTSTRAP_SERVERS", "bootstrap:9091"),
        ("TOPIC", "topic"),
        ("PROPERTIES__FOO_BAR", "baz"),
        ("K_SINK", "http://localhost"),
    ]);

    let cfg = Config::from_env_source(env).unwrap();

    assert_eq!(
        cfg.mode,
        Mode::Kafka(KafkaConfig {
            topic: "topic".to_string(),
            bootstrap_servers: "bootstrap:9091".into(),
            properties: vec![("foo_bar".to_string(), "baz".to_string())],
        })
    );
}

#[test]
fn test_cfg_ws() {
    let env = pairs(&[
        ("MODE", "ws"),
        ("DROGUE_APP", "app"),
        ("DROGUE_ENDPOINT", "endpoint"),
        ("DROGUE_USER", "user"),
        ("DROGUE_TOKEN", "token"),
        ("K_SINK", "http://localhost"),
    ]);

    let cfg = Config::from_env_source(env).unwrap();

    assert_eq!(
        cfg.mode,
        Mode::Websocket(WebsocketConfig {
            drogue_app: "app".into(),
            drogue_endpoint: "endpoint".into(),
            drogue_user: Some("user".into()),
            drogue_token: Some("token".into()),
        })
    );
}

#[test]
fn test_cfg_endpoint() {
    let env = pairs(&[
        ("MODE", "ws"),
        ("DROGUE_APP", "app"),
        ("DROGUE_ENDPOINT", "endpoint"),
        ("DROGUE_USER", "user"),
        ("DROGUE_TOKEN", "token"),
        ("K_SINK", "http://localhost"),
        ("ENDPOINT__METHOD", "GET"),
        ("ENDPOINT__HEADERS__foo", "bar"),
    ]);

    let cfg = Config::from_env_source(env).unwrap();

    assert_eq!(
        cfg.endpoint,
        EndpointConfig {
            method: HttpMethod::Get,
            username: None,
            password: None,
            token: None,
            tls_insecure: false,
            tls_certificate: None,
            headers: vec![("foo".to_string(), "bar".to_string())],
            timeout_ms: None,
            error_delay_ms: default_error_delay(),
            retries: 5,
        }
    );
}

#[test]
fn test_defaults() {
    assert_eq!(default_error_delay(), 1000);
    assert_eq!(default_retries(), 5);
    assert_eq!(default_method(), HttpMethod::Post);
    let d = EndpointConfig::default();
    assert_eq!(d.method, HttpMethod::Post);
    assert_eq!(d.retries, 5);
    assert_eq!(d.error_delay_ms, 1000);
    assert!(d.headers.is_empty());
    assert_eq!(d.timeout_ms, None);
    assert!(!d.tls_insecure);
}

#[test]
fn test_missing_mode() {
    let env = pairs(&[("K_SINK", "http://localhost")]);
    assert_eq!(
        Config::from_env_source(env),
        Err(ConfigError::MissingKey("mode".to_string()))
    );
}

#[test]
fn test_unknown_mode() {
    let env = pairs(&[("MODE", "carrier-pigeon"), ("K_SINK", "http://localhost")]);
    assert_eq!(
        Config::from_env_source(env),
        Err(ConfigError::InvalidValue("mode".to_string()))
    );
}

#[test]
fn test_missing_topic() {
    let env = pairs(&[
        ("MODE", "kafka"),
        ("BOOTSTRAP_SERVERS", "bootstrap:9091"),
        ("K_SINK", "http://localhost"),
    ]);
    assert_eq!(
        Config::from_env_source(env),
        Err(ConfigError::MissingKey("topic".to_string()))
    );
}

#[test]
fn test_missing_bootstrap_servers() {
    let env = pairs(&[("MODE", "kafka"), ("TOPIC", "topic"), ("K_SINK", "http://localhost")]);
    assert_eq!(
        Config::from_env_source(env),
        Err(ConfigError::MissingKey("bootstrap_servers".to_string()))
    );
}

#[test]
fn test_missing_k_sink() {
    let env = pairs(&[("MODE", "ws"), ("DROGUE_APP", "app"), ("DROGUE_ENDPOINT", "endpoint")]);
    assert_eq!(
        Config::from_env_source(env),
        Err(ConfigError::MissingKey("k_sink".to_string()))
    );
}

#[test]
fn test_missing_drogue_endpoint() {
    let env = pairs(&[("MODE", "websocket"), ("DROGUE_APP", "app"), ("K_SINK", "http://localhost")]);
    assert_eq!(
        Config::from_env_source(env),
        Err(ConfigError::MissingKey("drogue_endpoint".to_string()))
    );
}

#[test]
fn test_bad_retries() {
    let env = pairs(&[
        ("MODE", "ws"),
        ("DROGUE_APP", "app"),
        ("DROGUE_ENDPOINT", "endpoint"),
        ("K_SINK", "http://localhost"),
        ("ENDPOINT__RETRIES", "many"),
    ]);
    assert_eq!(
        Config::from_env_source(env),
        Err(ConfigError::InvalidValue("endpoint__retries".to_string()))
    );
}

#[test]
fn test_bad_method() {
    let env = pairs(&[
        ("MODE", "ws"),
        ("DROGUE_APP", "app"),
        ("DROGUE_ENDPOINT", "endpoint"),
        ("K_SINK", "http://localhost"),
        ("ENDPOINT__METHOD", "FETCH"),
    ]);
    assert_eq!(
        Config::from_env_source(env),
        Err(ConfigError::InvalidValue("endpoint__method".to_string()))
    );
}

#[test]
fn test_bad_tls_insecure() {
    let env = pairs(&[
        ("MODE", "ws"),
        ("DROGUE_APP", "app"),
        ("DROGUE_ENDPOINT", "endpoint"),
        ("K_SINK", "http://localhost"),
        ("ENDPOINT__TLS_INSECURE", "yes"),
    ]);
    assert_eq!(
        Config::from_env_source(env),
        Err(ConfigError::InvalidValue("endpoint__tls_insecure".to_string()))
    );
}

#[test]
fn test_bad_timeout() {
    let env = pairs(&[
        ("MODE", "ws"),
        ("DROGUE_APP", "app"),
        ("DROGUE_ENDPOINT", "endpoint"),
        ("K_SINK", "http://localhost"),
        ("ENDPOINT__TIMEOUT", "5s"),
    ]);
    assert_eq!(
        Config::from_env_source(env),
        Err(ConfigError::InvalidValue("endpoint__timeout".to_string()))
    );
}

#[test]
fn test_endpoint_full() {
    let env = pairs(&[
        ("MODE", "ws"),
        ("DROGUE_APP", "app"),
        ("DROGUE_ENDPOINT", "endpoint"),
        ("K_SINK", "http://localhost"),
        ("ENDPOINT__USERNAME", "u"),
        ("ENDPOINT__PASSWORD", "p"),
        ("ENDPOINT__TLS_INSECURE", "true"),
        ("ENDPOINT__TLS_CERTIFICATE", "/ca.pem"),
        ("ENDPOINT__TIMEOUT", "2500"),
        ("ENDPOINT__ERROR_DELAY", "250"),
        ("ENDPOINT__RETRIES", "7"),
    ]);
    let cfg = Config::from_env_source(env).unwrap();
    assert_eq!(cfg.k_sink, "http://localhost");
    assert_eq!(cfg.endpoint.username, Some("u".to_string()));
    assert_eq!(cfg.endpoint.password, Some("p".to_string()));
    assert_eq!(cfg.endpoint.token, None);
    assert!(cfg.endpoint.tls_insecure);
    assert_eq!(cfg.endpoint.tls_certificate, Some("/ca.pem".to_string()));
    assert_eq!(cfg.endpoint.timeout_ms, Some(2500));
    assert_eq!(cfg.endpoint.error_delay_ms, 250);
    assert_eq!(cfg.endpoint.retries, 7);
    assert!(cfg.validate().is_ok());
}

#[test]
fn test_conflicting_auth_rejected() {
    let env = pairs(&[
        ("MODE", "ws"),
        ("DROGUE_APP", "app"),
        ("DROGUE_ENDPOINT", "endpoint"),
        ("K_SINK", "http://localhost"),
        ("ENDPOINT__USERNAME", "u"),
        ("ENDPOINT__TOKEN", "t"),
    ]);
    let cfg = Config::from_env_source(env).unwrap();
    assert_eq!(cfg.validate(), Err(ConfigError::ConflictingAuth));
}
