use mqtt_bench::config::{Config, DynamicToken, ThingsInfo};
use mqtt_bench::connection::ConfigError;
use mqtt_bench::credential::{
    backoff_delay, extract_token, get_things_password, CredentialPlan, RetryDecision,
    TokenRetry, MAX_TOKEN_ATTEMPTS,
};

const RESPONSE: &str = r#"{
  "data": {
    "clientip": "string",
    "mqtt": {
      "host": "string",
      "port": 0,
      "sslport": 0
    },
    "owner": "string",
    "token": "this is a real token",
    "uuid": "string"
  },
  "message": "string",
  "result": true
}"#;

const TOKEN_EXTRACTOR: &str = ".data.token";

fn config(url: &str, servers: Vec<String>) -> Config {
    Config {
        broker_addr: vec!["127.0.0.1:1883".to_string()],
        client_id: "test".to_string(),
        user_name: "admin".to_string(),
        password: "admin".to_string(),
        think_time: 5000,
        random_client_id: false,
        topic_suffix: String::new(),
        is_payload_base64: false,
        things_payloads: vec![],
        duration: 60,
        things_info: vec![ThingsInfo {
            tenant_name: "google".to_string(),
            info_model_name: "demo_v1".to_string(),
            third_things_id: "thirdThingsID".to_string(),
            password: "things_password".to_string(),
            context: vec![],
        }],
        topic_template: "/t".to_string(),
        dynamic_token: DynamicToken {
            url: url.to_string(),
            payload: r#"{"username": "${tenantName}", "password": "${password}" }"#.to_string(),
            token_extractor: "$.data.token".to_string(),
            method: "POST".to_string(),
            servers,
        },
    }
}

#[test]
fn test_extractor() {
    let token = extract_token(RESPONSE, TOKEN_EXTRACTOR);
    assert!(token == Some("this is a real token".to_string()));
}

#[test]
fn extraction_failures_give_none() {
    assert_eq!(extract_token("not json", "$.data.token"), None);
    assert_eq!(extract_token(RESPONSE, "$.data.missing"), None);
    assert_eq!(extract_token(RESPONSE, "$.data.mqtt.port"), None);
    assert_eq!(extract_token(r#"{"data":{"token":""}}"#, "$.data.token"), Some(String::new()));
}

#[test]
fn empty_url_uses_static_password() {
    let cfg = config("", vec!["10.0.0.1".to_string()]);
    match get_things_password(&cfg, 0).unwrap() {
        CredentialPlan::Static(p) => assert_eq!(p, "things_password"),
        CredentialPlan::Remote(_) => panic!("no request expected"),
    }
}

#[test]
fn remote_plan_targets_a_listed_server() {
    let servers = vec!["http://a".to_string(), "http://b".to_string()];
    let cfg = config("/v2/things/mqtt/tokens", servers);
    let plan = cfg.credential_plan(0, 1).unwrap();
    match plan {
        CredentialPlan::Remote(req) => {
            assert_eq!(req.url, "http://b/v2/things/mqtt/tokens");
            assert_eq!(req.method, "POST");
            assert_eq!(req.body, r#"{"username": "google", "password": "things_password" }"#);
            assert_eq!(req.extractor, "$.data.token");
        }
        CredentialPlan::Static(_) => panic!("request expected"),
    }
    match cfg.get_things_password(0).unwrap() {
        CredentialPlan::Remote(req) => assert!(
            req.url == "http://a/v2/things/mqtt/tokens" || req.url == "http://b/v2/things/mqtt/tokens"
        ),
        CredentialPlan::Static(_) => panic!("request expected"),
    }
}

#[test]
fn remote_plan_without_servers_uses_url() {
    let cfg = config("http://tokens/v2", vec![]);
    match cfg.get_things_password(0).unwrap() {
        CredentialPlan::Remote(req) => assert_eq!(req.url, "http://tokens/v2"),
        CredentialPlan::Static(_) => panic!("request expected"),
    }
}

#[test]
fn ten_failures_exhaust() {
    let mut retry = TokenRetry::new();
    for i in 1..MAX_TOKEN_ATTEMPTS {
        assert_eq!(retry.record(None), RetryDecision::Retry, "attempt {}", i);
    }
    assert_eq!(retry.record(None), RetryDecision::Exhausted);
    assert_eq!(retry.failures, 10);
}

#[test]
fn empty_token_is_not_exhaustion() {
    let mut retry = TokenRetry::new();
    assert_eq!(retry.record(None), RetryDecision::Retry);
    assert_eq!(retry.record(Some(String::new())), RetryDecision::Resolved(String::new()));
    assert_eq!(retry.failures, 1);
}

#[test]
fn backoff_is_bounded() {
    for _ in 0..100 {
        let d = backoff_delay();
        assert!((1..=5000).contains(&d));
    }
}

#[test]
fn panicking_paths_are_refused() {
    assert_eq!(extract_token(r#"{"data":[1,2]}"#, "$.data[99999999999999999999]"), None);
    assert_eq!(extract_token(r#"{"data":[1,2]}"#, "$.data[0:1:0]"), None);
    assert_eq!(extract_token(RESPONSE, "$.data['token']"), None);
}

#[test]
fn first_match_must_be_a_string() {
    assert_eq!(extract_token(r#"{"a":{"b":"x"},"c":{"b":"y"}}"#, "$..b"), Some("x".to_string()));
    assert_eq!(extract_token(r#"{"a":{"b":1}}"#, "$..b"), None);
}

#[test]
fn bad_extractor_is_a_config_error() {
    let mut cfg = config("/v2", vec!["http://a".to_string()]);
    cfg.dynamic_token.token_extractor = "$.data[0:1:0]".to_string();
    assert!(matches!(cfg.get_things_password(0), Err(ConfigError::InvalidTokenExtractor)));
    cfg.dynamic_token.url = String::new();
    assert!(matches!(cfg.get_things_password(0), Ok(CredentialPlan::Static(_))));
}

#[test]
fn wide_space_request_template_is_a_config_error() {
    let mut cfg = config("/v2", vec!["http://a".to_string()]);
    cfg.dynamic_token.payload = "${\u{a0}tenantName}".to_string();
    assert!(matches!(cfg.credential_plan(0, 0), Err(ConfigError::InvalidTemplate)));
}
