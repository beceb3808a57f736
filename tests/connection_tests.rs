use mqtt_bench::config::{Config, DynamicToken, ThingsInfo};
use mqtt_bench::connection::{
    broker_at, connect_packet, dial_delay, get_payload, get_topic, pick_broker, plan_session,
    publish_packet, session_count, startup_delay, validate_payloads, ConfigError,
};

const BASE64_PAYLOAD: &str = "AHRvdGFsX2VuZXJneQAyMC43MQB0b2RheV9lbmVyZ3kANTAuNzQAdGVtcGVyYXR1cmUAOTguNzIAZ2ZjaQA2OS45NgBidXNfdm9sdAA4MC42MQBwb3dlcgAyMC45MQBxX3Bvd2VyADQ1LjMyAHBmADg3LjQyAHB2MV92b2x0ADIwLjEyAHB2MV9jdXJyADMyLjEAcHYyX3ZvbHQAMjAuNzUAcHYyX2N1cnIANzcuMjUAcHYzX3ZvbHQAODkuNwBwdjNfY3VycgA4Ni45NgBsMV92b2x0ADQxLjUyAGwxX2N1cnIAOTIuMTcAbDFfZnJlcQAzMi4xNQBsMV9kY2kAOTAuMjMAbDFfcG93ZXIAOTMuOABsMV9wZgA4LjgAdGltZQAxNjc1MjQwMjY4MjAxAA==";

fn config(payload: &str, base64: bool) -> Config {
    Config {
        broker_addr: vec!["192.168.24.245:1883".to_string()],
        client_id: "prefix".to_string(),
        user_name: "admin".to_string(),
        password: "admin".to_string(),
        think_time: 10000,
        random_client_id: false,
        topic_suffix: String::new(),
        is_payload_base64: base64,
        things_payloads: vec![("pressure3".to_string(), payload.to_string())],
        duration: 60,
        things_info: vec![ThingsInfo {
            tenant_name: "pressure3".to_string(),
            info_model_name: "invert".to_string(),
            third_things_id: "device_invert_3_172".to_string(),
            password: "12345678".to_string(),
            context: vec![],
        }],
        topic_template: "/d2s/${tenantName}/${infoModelName}/${thirdThingsId}/data".to_string(),
        dynamic_token: DynamicToken::new(),
    }
}

#[test]
fn test_get_payload() {
    let config = config(BASE64_PAYLOAD, true);
    let payload = get_payload(&config, 0).unwrap();
    assert!(payload.len() != 0);
}

#[test]
fn base64_payload_decodes_exactly() {
    let config = config("aGVsbG8gd29ybGQ=", true);
    assert_eq!(get_payload(&config, 0).unwrap(), b"hello world".to_vec());
}

#[test]
fn invalid_base64_payload_is_a_config_error() {
    let config = config("not base64 at all!", true);
    assert_eq!(get_payload(&config, 0), Err(ConfigError::InvalidBase64Payload));
    assert_eq!(validate_payloads(&config, 1), Err((0, ConfigError::InvalidBase64Payload)));
}

#[test]
fn raw_payload_is_used_as_utf8_bytes() {
    let config = config("hello world", false);
    assert_eq!(get_payload(&config, 0).unwrap(), b"hello world".to_vec());
    assert_eq!(validate_payloads(&config, 1), Ok(()));
}

#[test]
fn missing_payload_is_a_config_error() {
    let mut config = config("aGVsbG8=", true);
    config.things_payloads = vec![("other".to_string(), "aGVsbG8=".to_string())];
    assert_eq!(get_payload(&config, 0), Err(ConfigError::MissingPayload));
}

#[test]
fn topic_is_rendered_from_template() {
    let config = config("x", false);
    assert_eq!(get_topic(&config, 0, "cid"), "/d2s/pressure3/invert/device_invert_3_172/data");
}

#[test]
fn single_broker_is_used() {
    let config = config("x", false);
    assert_eq!(pick_broker(&config).unwrap(), "192.168.24.245:1883");
}

#[test]
fn broker_choice_among_several() {
    let mut config = config("x", false);
    config.broker_addr = vec!["a:1".to_string(), "b:2".to_string(), "c:3".to_string()];
    assert_eq!(broker_at(&config, 2).unwrap(), "c:3");
    let picked = pick_broker(&config).unwrap();
    assert!(config.broker_addr.contains(&picked));
}

#[test]
fn no_broker_is_a_config_error() {
    let mut config = config("x", false);
    config.broker_addr = vec![];
    assert_eq!(pick_broker(&config), Err(ConfigError::NoBrokerAddress));
}

#[test]
fn connect_packet_layout() {
    let config = config("x", false);
    let bytes = connect_packet(&config, "cid", "secret").unwrap();
    // CONNECT, remaining length, protocol name "MQTT", level 4,
    // flags: user name, password, clean session.
    assert_eq!(bytes[0], 0x10);
    assert_eq!(&bytes[2..8], &[0, 4, b'M', b'Q', b'T', b'T']);
    assert_eq!(bytes[8], 4);
    assert_eq!(bytes[9], 0xC2);
    assert_eq!(&bytes[10..12], &[0, 0]);
    assert_eq!(bytes[1] as usize, bytes.len() - 2);
    let tail = &bytes[12..];
    assert_eq!(tail, &[0, 3, b'c', b'i', b'd', 0, 5, b'a', b'd', b'm', b'i', b'n', 0, 6, b's', b'e', b'c', b'r', b'e', b't']);
}

#[test]
fn connect_field_too_long() {
    let config = config("x", false);
    let long = "x".repeat(70000);
    assert_eq!(connect_packet(&config, &long, "p"), Err(ConfigError::FieldTooLong));
}

#[test]
fn publish_packet_layout() {
    let bytes = publish_packet("a/b", &b"hi".to_vec()).unwrap();
    // PUBLISH at QoS 1, topic "a/b", packet id 1, payload "hi".
    assert_eq!(bytes, vec![0x32, 9, 0, 3, b'a', b'/', b'b', 0, 1, b'h', b'i']);
}

#[test]
fn wildcard_topic_is_rejected() {
    assert_eq!(publish_packet("a/+/b", &b"hi".to_vec()), Err(ConfigError::InvalidTopic));
    assert_eq!(publish_packet("", &b"hi".to_vec()), Err(ConfigError::InvalidTopic));
}

#[test]
fn session_plan_is_complete() {
    let config = config("hello", false);
    let plan = plan_session(&config, 0, "cid").unwrap();
    assert_eq!(plan.budget, 6);
    assert_eq!(plan.payload, b"hello".to_vec());
    assert_eq!(plan.topic, "/d2s/pressure3/invert/device_invert_3_172/data");
    assert_eq!(plan.publish[0], 0x32);
    let mut bad = config;
    bad.think_time = 0;
    assert!(matches!(plan_session(&bad, 0, "cid"), Err(ConfigError::InvalidThinkTime)));
}

#[test]
fn delays_stay_in_their_windows() {
    for _ in 0..100 {
        let s = startup_delay();
        assert!(1 <= s && s < 120000);
        let d = dial_delay();
        assert!(1 <= d && d < 30000);
    }
}

#[test]
fn session_count_is_capped() {
    assert_eq!(session_count(10, 3), 3);
    assert_eq!(session_count(2, usize::MAX), 2);
    assert_eq!(session_count(0, 5), 0);
}

#[test]
fn wide_space_topic_template_is_a_config_error() {
    let mut cfg = config("hello", false);
    cfg.topic_template = "/d2s/${\u{3000}tenantName}".to_string();
    assert!(matches!(plan_session(&cfg, 0, "cid"), Err(ConfigError::InvalidTemplate)));
}

#[test]
fn publish_packet_long_remaining_length() {
    let payload = vec![7u8; 200];
    let bytes = publish_packet("t", &payload).unwrap();
    // 2 + 1 topic bytes, 2 id bytes, 200 payload bytes: 205 = 0x4D + 0x80, 0x01.
    assert_eq!(&bytes[..3], &[0x32, 0xCD, 0x01]);
    assert_eq!(&bytes[3..8], &[0, 1, b't', 0, 1]);
    assert_eq!(bytes.len(), 3 + 205);
}
