//! Everything a session prepares before and right after dialing: the broker
//! endpoint, the CONNECT and PUBLISH packets, the payload, the topic and the
//! number of publishes to make.

use vstd::prelude::*;
use vstd::string::*;
use vstd::utf8::encode_utf8;
use base64::Engine;
use mqtt::Encodable;
use crate::config::{Config, session_map};
use crate::context::{lookup, pairs_to_map, pairs_view};
use crate::random::{random_index, shuffle_delay};
use crate::template::{filled_template, is_renderable, render_template, renderable};

verus! {

/// Upper bound, in milliseconds, of the idle time before a session starts.
pub const MAX_STARTUP_DELAY_MILLIS: u64 = 120000;

/// Upper bound, in milliseconds, of the pause right before dialing.
pub const MAX_DIAL_DELAY_MILLIS: u64 = 30000;

/// Longest string, in bytes, that an MQTT packet field can carry.
pub const MAX_FIELD_BYTES: usize = 65535;

/// Largest remaining length of an MQTT packet.
pub const MAX_PACKET_BYTES: usize = 268435455;

/// Packet identifier of the PUBLISH that a session repeats.
pub const PUBLISH_PACKET_ID: u16 = 1;

/// Configuration that a session cannot work with.
#[derive(PartialEq, Eq, Structural, Clone, Copy, Debug)]
pub enum ConfigError {
    /// The think time is not a positive number of milliseconds.
    InvalidThinkTime,
    /// No payload is configured for the device's tenant.
    MissingPayload,
    /// The payload is marked base64 but does not decode.
    InvalidBase64Payload,
    /// No broker address is configured.
    NoBrokerAddress,
    /// The rendered topic is not a valid MQTT topic name.
    InvalidTopic,
    /// A CONNECT field is longer than an MQTT string can be.
    FieldTooLong,
    /// The payload does not fit in one MQTT packet.
    PayloadTooLarge,
    /// A template holds whitespace outside ASCII, which the template engine
    /// cannot handle.
    InvalidTemplate,
    /// The token extractor is not a chain of field names.
    InvalidTokenExtractor,
}

/// What base64's STANDARD engine decodes from a text; none where it rejects it.
pub uninterp spec fn base64_decoded(s: Seq<char>) -> Option<Seq<u8>>;

/// Relies on base64's `general_purpose::STANDARD.decode`: standard alphabet
/// with padding; an error on anything else.
#[verifier::external_body]
fn decode_base64(s: &str) -> (r: Option<Vec<u8>>)
    ensures
        r matches Some(v) ==> base64_decoded(s@) == Some(v@),
        r is None ==> base64_decoded(s@) is None,
{
    base64::engine::general_purpose::STANDARD.decode(s).ok()
}

/// A 16-bit number, most significant byte first.
pub open spec fn u16_be(n: int) -> Seq<u8> {
    seq![(n / 256) as u8, (n % 256) as u8]
}

/// An MQTT string: its UTF-8 length as a 16-bit number, then its bytes.
pub open spec fn mqtt_string(s: Seq<char>) -> Seq<u8> {
    u16_be(encode_utf8(s).len() as int) + encode_utf8(s)
}

/// The remaining-length field of an MQTT fixed header: seven bits per byte,
/// least significant group first, the top bit set on all but the last byte.
pub open spec fn remaining_length(n: nat) -> Seq<u8>
    decreases n,
{
    if n < 128 {
        seq![n as u8]
    } else {
        seq![(n % 128 + 128) as u8] + remaining_length(n / 128)
    }
}

/// An MQTT 3.1.1 CONNECT packet with a user name and a password, no will,
/// and keep-alive 0.
pub open spec fn connect_bytes(client_id: Seq<char>, clean_session: bool, user_name: Seq<char>, password: Seq<char>) -> Seq<u8> {
    let flags: u8 = if clean_session { 0xC2u8 } else { 0xC0u8 };
    let body = seq![0u8, 4u8, 77u8, 81u8, 84u8, 84u8, 4u8, flags, 0u8, 0u8] + mqtt_string(client_id)
        + mqtt_string(user_name) + mqtt_string(password);
    seq![0x10u8] + remaining_length(body.len()) + body
}

/// Relies on mqtt-protocol's `ConnectPacket` and its `encode`, which asserts
/// that each string fits in 65535 bytes; writing to a `Vec` cannot fail.
#[verifier::external_body]
fn encode_connect(client_id: &str, clean_session: bool, user_name: &str, password: &str) -> (r: Vec<u8>)
    requires
        client_id.spec_bytes().len() <= MAX_FIELD_BYTES,
        user_name.spec_bytes().len() <= MAX_FIELD_BYTES,
        password.spec_bytes().len() <= MAX_FIELD_BYTES,
    ensures
        r@ == connect_bytes(client_id@, clean_session, user_name@, password@),
{
    let mut conn = mqtt::packet::ConnectPacket::new(client_id);
    conn.set_clean_session(clean_session);
    conn.set_user_name(Some(user_name.to_string()));
    conn.set_password(Some(password.to_string()));
    let mut buf = Vec::new();
    conn.encode(&mut buf).unwrap();
    buf
}

/// A valid MQTT topic name: not empty, at most 65535 bytes, and without the
/// wildcards `#` and `+`.
pub open spec fn valid_topic(topic: Seq<char>) -> bool {
    &&& topic.len() > 0
    &&& encode_utf8(topic).len() <= MAX_FIELD_BYTES
    &&& forall|i: int| 0 <= i < topic.len() ==> #[trigger] topic[i] != '#' && topic[i] != '+'
}

/// A QoS 1 PUBLISH packet: header byte 0x32, the remaining length, the
/// topic, the packet identifier, then the payload as it is.
pub open spec fn publish_bytes(topic: Seq<char>, packet_id: u16, payload: Seq<u8>) -> Seq<u8> {
    let body = mqtt_string(topic) + u16_be(packet_id as int) + payload;
    seq![0x32u8] + remaining_length(body.len()) + body
}

/// Relies on mqtt-protocol's `TopicName::new`, which rejects what its
/// pattern `^[^#+]+$` and its 65535-byte bound reject, and on
/// `PublishPacket` at QoS 1 and its `encode`.
#[verifier::external_body]
fn encode_publish(topic: &str, packet_id: u16, payload: &[u8]) -> (r: Option<Vec<u8>>)
    requires
        payload@.len() <= MAX_PACKET_BYTES - 2 * MAX_FIELD_BYTES,
    ensures
        r is Some <==> valid_topic(topic@),
        r matches Some(v) ==> v@ == publish_bytes(topic@, packet_id, payload@),
{
    let name = mqtt::TopicName::new(topic).ok()?;
    let qos = mqtt::packet::QoSWithPacketIdentifier::Level1(packet_id);
    let packet = mqtt::packet::PublishPacket::new(name, qos, payload.to_vec());
    let mut buf = Vec::new();
    packet.encode(&mut buf).unwrap();
    Some(buf)
}

pub open spec fn bytes_result(r: Result<Vec<u8>, ConfigError>) -> Result<Seq<u8>, ConfigError> {
    match r {
        Ok(v) => Ok(v@),
        Err(e) => Err(e),
    }
}

/// Number of acknowledged publishes after which a session ends:
/// floor(duration × 1000 / think_time), and none for a non-positive duration.
pub open spec fn budget_of(duration: i32, think_time: i32) -> int {
    if duration <= 0 {
        0
    } else {
        (duration * 1000) / think_time as int
    }
}

/// The iteration budget of a session; the think time must be positive.
pub fn iteration_budget(duration: i32, think_time: i32) -> (r: Result<u64, ConfigError>)
    ensures
        think_time <= 0 ==> r == Err::<u64, ConfigError>(ConfigError::InvalidThinkTime),
        think_time > 0 ==> (r matches Ok(b) && b == budget_of(duration, think_time)),
{
    if think_time <= 0 {
        return Err(ConfigError::InvalidThinkTime);
    }
    if duration <= 0 {
        return Ok(0);
    }
    let total: i64 = duration as i64 * 1000;
    let b: i64 = total / think_time as i64;
    proof {
        assert(0 <= b <= total) by (nonlinear_arith)
            requires
                b == total as int / think_time as int,
                total >= 0,
                think_time >= 1,
        ;
    }
    Ok(b as u64)
}

/// The payload a device publishes, as configured for its tenant.
pub open spec fn expected_payload(cfg: Config, idx: int) -> Result<Seq<u8>, ConfigError> {
    let m = pairs_to_map(pairs_view(cfg.things_payloads@));
    let key = cfg.things_info@[idx].tenant_name@;
    if !m.contains_key(key) {
        Err(ConfigError::MissingPayload)
    } else if cfg.is_payload_base64 {
        match base64_decoded(m[key]) {
            Some(b) => Ok(b),
            None => Err(ConfigError::InvalidBase64Payload),
        }
    } else {
        Ok(encode_utf8(m[key]))
    }
}

/// The payload of device `idx`: its tenant's configured text, base64-decoded
/// when payloads are marked base64. A missing or undecodable payload is a
/// configuration error, never an empty payload.
pub fn get_payload(cfg: &Config, idx: usize) -> (r: Result<Vec<u8>, ConfigError>)
    requires
        idx < cfg.things_info@.len(),
    ensures
        bytes_result(r) == expected_payload(*cfg, idx as int),
{
    let tenant_name = cfg.things_info[idx].tenant_name.as_str();
    match lookup(&cfg.things_payloads, tenant_name) {
        None => Err(ConfigError::MissingPayload),
        Some(payload) => {
            if cfg.is_payload_base64 {
                match decode_base64(payload.as_str()) {
                    Some(bytes) => Ok(bytes),
                    None => Err(ConfigError::InvalidBase64Payload),
                }
            } else {
                Ok(payload.as_str().as_bytes_vec())
            }
        },
    }
}

/// The topic of device `idx`, rendered from the topic template.
pub fn get_topic(cfg: &Config, idx: usize, client_id: &str) -> (r: String)
    requires
        idx < cfg.things_info@.len(),
        renderable(cfg.topic_template@),
    ensures
        r@ == filled_template(cfg.topic_template@, session_map(*cfg, idx as int, client_id@)),
{
    let context = cfg.to_context(idx, client_id);
    render_template(cfg.topic_template.as_str(), &context)
}

/// The broker address at `choice`, or at 0 where a single one is configured.
pub fn broker_at(cfg: &Config, choice: usize) -> (r: Result<String, ConfigError>)
    requires
        cfg.broker_addr@.len() > 1 ==> choice < cfg.broker_addr@.len(),
    ensures
        cfg.broker_addr@.len() == 0 ==> r == Err::<String, ConfigError>(ConfigError::NoBrokerAddress),
        cfg.broker_addr@.len() == 1 ==> (r matches Ok(a) && a@ == cfg.broker_addr@[0]@),
        cfg.broker_addr@.len() > 1 ==> (r matches Ok(a) && a@ == cfg.broker_addr@[choice as int]@),
{
    let n = cfg.broker_addr.len();
    if n == 0 {
        Err(ConfigError::NoBrokerAddress)
    } else if n == 1 {
        Ok(cfg.broker_addr[0].clone())
    } else {
        Ok(cfg.broker_addr[choice].clone())
    }
}

/// The broker to dial: drawn uniformly where several are configured,
/// otherwise the only one.
pub fn pick_broker(cfg: &Config) -> (r: Result<String, ConfigError>)
    ensures
        cfg.broker_addr@.len() == 0 ==> r == Err::<String, ConfigError>(ConfigError::NoBrokerAddress),
        cfg.broker_addr@.len() == 1 ==> (r matches Ok(a) && a@ == cfg.broker_addr@[0]@),
        cfg.broker_addr@.len() > 1 ==> (r matches Ok(a) && exists|k: int|
            0 <= k < cfg.broker_addr@.len() && a@ == #[trigger] cfg.broker_addr@[k]@),
{
    let n = cfg.broker_addr.len();
    let choice = if n > 1 {
        random_index(n)
    } else {
        0
    };
    broker_at(cfg, choice)
}

/// The CONNECT packet of a session: clean session, the configured user name
/// and the resolved password.
pub fn connect_packet(cfg: &Config, client_id: &str, password: &str) -> (r: Result<Vec<u8>, ConfigError>)
    ensures
        r matches Ok(v) ==> v@ == connect_bytes(client_id@, true, cfg.user_name@, password@),
        r is Err ==> r == Err::<Vec<u8>, ConfigError>(ConfigError::FieldTooLong),
        r is Ok <==> (client_id.spec_bytes().len() <= MAX_FIELD_BYTES
            && encode_utf8(cfg.user_name@).len() <= MAX_FIELD_BYTES
            && password.spec_bytes().len() <= MAX_FIELD_BYTES),
{
    let user = cfg.user_name.as_str();
    if client_id.as_bytes().len() > MAX_FIELD_BYTES || user.as_bytes().len() > MAX_FIELD_BYTES
        || password.as_bytes().len() > MAX_FIELD_BYTES {
        return Err(ConfigError::FieldTooLong);
    }
    Ok(encode_connect(client_id, true, user, password))
}

/// The QoS 1 PUBLISH packet a session sends on every cadence tick.
pub fn publish_packet(topic: &str, payload: &Vec<u8>) -> (r: Result<Vec<u8>, ConfigError>)
    ensures
        payload@.len() > MAX_PACKET_BYTES - 2 * MAX_FIELD_BYTES ==> r == Err::<Vec<u8>, ConfigError>(ConfigError::PayloadTooLarge),
        payload@.len() <= MAX_PACKET_BYTES - 2 * MAX_FIELD_BYTES ==> bytes_result(r) == if valid_topic(
            topic@,
        ) {
            Ok(publish_bytes(topic@, PUBLISH_PACKET_ID, payload@))
        } else {
            Err(ConfigError::InvalidTopic)
        },
{
    if payload.len() > MAX_PACKET_BYTES - 2 * MAX_FIELD_BYTES {
        return Err(ConfigError::PayloadTooLarge);
    }
    match encode_publish(topic, PUBLISH_PACKET_ID, payload.as_slice()) {
        Some(b) => Ok(b),
        None => Err(ConfigError::InvalidTopic),
    }
}

/// What a session publishes, fixed once when it starts.
pub struct SessionPlan {
    pub topic: String,
    pub payload: Vec<u8>,
    pub publish: Vec<u8>,
    pub budget: u64,
}

pub open spec fn session_topic(cfg: Config, idx: int, client_id: Seq<char>) -> Seq<char> {
    filled_template(cfg.topic_template@, session_map(cfg, idx, client_id))
}

/// Why a session of device `idx` cannot be planned, checked in this order:
/// think time, topic template, payload, payload size, topic.
pub open spec fn plan_error(cfg: Config, idx: int, client_id: Seq<char>) -> Option<ConfigError> {
    if cfg.think_time <= 0 {
        Some(ConfigError::InvalidThinkTime)
    } else if !renderable(cfg.topic_template@) {
        Some(ConfigError::InvalidTemplate)
    } else {
        match expected_payload(cfg, idx) {
            Err(e) => Some(e),
            Ok(p) => if p.len() > MAX_PACKET_BYTES - 2 * MAX_FIELD_BYTES {
                Some(ConfigError::PayloadTooLarge)
            } else if !valid_topic(session_topic(cfg, idx, client_id)) {
                Some(ConfigError::InvalidTopic)
            } else {
                None
            },
        }
    }
}

/// Topic, payload, PUBLISH packet and budget of a session of device `idx`.
pub fn plan_session(cfg: &Config, idx: usize, client_id: &str) -> (r: Result<SessionPlan, ConfigError>)
    requires
        idx < cfg.things_info@.len(),
    ensures
        r matches Err(e) ==> plan_error(*cfg, idx as int, client_id@) == Some(e),
        r matches Ok(p) ==> {
            &&& plan_error(*cfg, idx as int, client_id@) is None
            &&& p.topic@ == session_topic(*cfg, idx as int, client_id@)
            &&& expected_payload(*cfg, idx as int) == Ok::<Seq<u8>, ConfigError>(p.payload@)
            &&& p.publish@ == publish_bytes(p.topic@, PUBLISH_PACKET_ID, p.payload@)
            &&& p.budget == budget_of(cfg.duration, cfg.think_time)
        },
        plan_error(*cfg, idx as int, client_id@) is None ==> r is Ok,
{
    let budget = match iteration_budget(cfg.duration, cfg.think_time) {
        Ok(b) => b,
        Err(e) => return Err(e),
    };
    if !is_renderable(cfg.topic_template.as_str()) {
        return Err(ConfigError::InvalidTemplate);
    }
    let payload = match get_payload(cfg, idx) {
        Ok(p) => p,
        Err(e) => return Err(e),
    };
    let topic = get_topic(cfg, idx, client_id);
    let publish = match publish_packet(topic.as_str(), &payload) {
        Ok(b) => b,
        Err(e) => return Err(e),
    };
    Ok(SessionPlan { topic, payload, publish, budget })
}

/// Checks the payload of every device below `count` before any session
/// starts; the first device whose payload is unusable is reported.
pub fn validate_payloads(cfg: &Config, count: usize) -> (r: Result<(), (usize, ConfigError)>)
    requires
        count <= cfg.things_info@.len(),
    ensures
        r is Ok <==> forall|i: int| 0 <= i < count ==> (#[trigger] expected_payload(*cfg, i)) is Ok,
        r matches Err((i, e)) ==> i < count && expected_payload(*cfg, i as int) == Err::<Seq<u8>, ConfigError>(e),
{
    for i in 0..count
        invariant
            count <= cfg.things_info@.len(),
            forall|j: int| 0 <= j < i ==> (#[trigger] expected_payload(*cfg, j)) is Ok,
    {
        match get_payload(cfg, i) {
            Ok(_) => {},
            Err(e) => return Err((i, e)),
        }
    }
    Ok(())
}

/// Idle time before a session starts, spreading the ramp-up.
pub fn startup_delay() -> (r: u64)
    ensures
        1 <= r < MAX_STARTUP_DELAY_MILLIS,
{
    shuffle_delay(MAX_STARTUP_DELAY_MILLIS)
}

/// Pause right before dialing, so that sessions do not dial all at once.
pub fn dial_delay() -> (r: u64)
    ensures
        1 <= r < MAX_DIAL_DELAY_MILLIS,
{
    shuffle_delay(MAX_DIAL_DELAY_MILLIS)
}

/// Number of sessions to run: one per device, at most `max_connections`.
pub fn session_count(population: usize, max_connections: usize) -> (r: usize)
    ensures
        r == if population < max_connections { population } else { max_connections },
{
    if population < max_connections {
        population
    } else {
        max_connections
    }
}

} // verus!
