//! Device enrollment: the answer to an update check, and activation by challenge.
use vstd::prelude::*;
use crate::config::ServerConfig;
use hmac::Mac;
use rand::Rng;
use vstd::string::StringSliceAdditionalSpecFns;

verus! {

/// Algorithm a device must sign its activation with.
pub const ACTIVATION_ALGORITHM: &'static str = "hmac-sha256";

/// Length of an activation challenge.
pub const CHALLENGE_LEN: usize = 32;

/// How long a challenge stays valid, in seconds.
pub const CHALLENGE_TTL_SECS: u64 = 300;

/// Host used in the session address when the request names none.
pub const FALLBACK_HOST: &'static str = "localhost:8002";

pub struct OtaResponse {
    pub websocket: WebsocketInfo,
    pub mqtt: Option<MqttInfo>,
    pub server_time: ServerTimeInfo,
    pub activation: Option<ActivationInfo>,
    pub firmware: FirmwareInfo,
}

pub struct WebsocketInfo {
    pub url: String,
    pub token: String,
}

pub struct MqttInfo {
    pub endpoint: String,
    pub client_id: String,
    pub username: String,
    pub password: String,
    pub publish_topic: String,
    pub subscribe_topic: String,
}

pub struct ServerTimeInfo {
    pub timestamp: i64,
    pub time_zone: String,
    pub timezone_offset: i32,
}

pub struct ActivationInfo {
    pub code: String,
    pub message: String,
    pub challenge: String,
    pub timeout_ms: u64,
}

pub struct FirmwareInfo {
    pub version: String,
    pub url: String,
}

pub struct ActivationRequest {
    pub payload: ActivationPayload,
}

pub struct ActivationPayload {
    pub algorithm: String,
    pub challenge: Option<String>,
    pub signature: Option<String>,
    pub digest: Option<String>,
    pub device_id: Option<String>,
}

/// HMAC-SHA256 of `message` under `key`.
pub uninterp spec fn hmac_sha256_of(key: Seq<u8>, message: Seq<u8>) -> Seq<u8>;

/// Relies on `hmac::Hmac::<sha2::Sha256>` (`new_from_slice`, `update`, `finalize`):
/// the 32-byte tag of `message` under `key`; a key of any length is accepted.
#[verifier::external_body]
fn hmac_sha256(key: &[u8], message: &[u8]) -> (r: Vec<u8>)
    ensures
        r@ == hmac_sha256_of(key@, message@),
        r@.len() == 32,
{
    let mut mac = hmac::Hmac::<sha2::Sha256>::new_from_slice(key).expect("any key length");
    mac.update(message);
    mac.finalize().into_bytes().to_vec()
}

/// A lowercase hex digit.
pub open spec fn hex_digit(n: int) -> char {
    if n < 10 {
        ('0' as u8 + n) as char
    } else {
        ('a' as u8 + n - 10) as char
    }
}

/// Bytes as lowercase hex, two digits each, high digit first.
pub open spec fn hex_of(b: Seq<u8>) -> Seq<char>
    decreases b.len(),
{
    if b.len() == 0 {
        Seq::empty()
    } else {
        hex_of(b.drop_last()) + seq![hex_digit(b.last() as int / 16), hex_digit(b.last() as int % 16)]
    }
}

/// Relies on `hex::encode`: two lowercase hex digits per byte.
#[verifier::external_body]
fn to_hex(b: &[u8]) -> (r: String)
    ensures
        r@ == hex_of(b@),
{
    hex::encode(b)
}

/// Whether `c` is an ASCII letter or digit.
pub open spec fn alphanumeric(c: char) -> bool {
    ('0' <= c && c <= '9') || ('a' <= c && c <= 'z') || ('A' <= c && c <= 'Z')
}

/// Relies on `rand::rng` sampling `rand::distr::Alphanumeric`: random ASCII letters
/// and digits.
#[verifier::external_body]
fn random_alphanumeric(n: usize) -> (r: String)
    ensures
        r@.len() == n,
        forall|k: int| 0 <= k < r@.len() ==> alphanumeric(#[trigger] r@[k]),
{
    rand::rng().sample_iter(&rand::distr::Alphanumeric).take(n).map(char::from).collect()
}

/// The signature a device must present for `challenge`: the hex HMAC of the challenge
/// under the shared key.
pub open spec fn expected_signature(key: &str, challenge: &str) -> Seq<char> {
    hex_of(hmac_sha256_of(key.spec_bytes(), challenge.spec_bytes()))
}

/// Signs text with the shared key.
pub fn sign(key: &str, message: &str) -> (r: String)
    ensures
        r@ == hex_of(hmac_sha256_of(key.spec_bytes(), message.spec_bytes())),
{
    let tag = hmac_sha256(key.as_bytes(), message.as_bytes());
    to_hex(tag.as_slice())
}

/// The challenge a device that is not activated receives.
pub fn issue_challenge() -> (r: ActivationInfo)
    ensures
        r.code@ == "0"@,
        r.message@ == "Device not activated"@,
        r.challenge@.len() == CHALLENGE_LEN,
        forall|k: int| 0 <= k < r.challenge@.len() ==> alphanumeric(#[trigger] r.challenge@[k]),
        r.timeout_ms == 1000 * CHALLENGE_TTL_SECS,
{
    ActivationInfo {
        code: "0".to_owned(),
        message: "Device not activated".to_owned(),
        challenge: random_alphanumeric(CHALLENGE_LEN),
        timeout_ms: 1000 * CHALLENGE_TTL_SECS,
    }
}

/// `a` followed by `b`.
fn joined(a: &str, b: &str) -> (r: String)
    ensures
        r@ == a@ + b@,
{
    let mut r = a.to_owned();
    r.append(b);
    r
}

/// The MQTT credentials of a device: its password is the hex HMAC of
/// `device:client:key` under the shared key.
pub fn mqtt_credentials(endpoint: &str, device_id: &str, client_id: &str, key: &str) -> (r: MqttInfo)
    ensures
        r.endpoint@ == endpoint@,
        r.client_id@ == device_id@ + "_client"@,
        r.username@ == device_id@,
        r.publish_topic@ == "device/"@ + device_id@ + "/pub"@,
        r.subscribe_topic@ == "device/"@ + device_id@ + "/sub"@,
        exists|raw: &str| raw@ == device_id@ + ":"@ + client_id@ + ":"@ + key@
            && r.password@ == hex_of(hmac_sha256_of(key.spec_bytes(), raw.spec_bytes())),
{
    let mut raw = joined(device_id, ":");
    raw.append(client_id);
    raw.append(":");
    raw.append(key);
    let password = sign(key, raw.as_str());
    let mut publish = joined("device/", device_id);
    publish.append("/pub");
    let mut subscribe = joined("device/", device_id);
    subscribe.append("/sub");
    MqttInfo {
        endpoint: endpoint.to_owned(),
        client_id: joined(device_id, "_client"),
        username: device_id.to_owned(),
        password,
        publish_topic: publish,
        subscribe_topic: subscribe,
    }
}

/// The answer to an update check. `host` is the request's `Host` header, `activation`
/// the challenge issued when the device must still activate, `now_ms` the time.
pub fn ota_response(
    config: &ServerConfig,
    device_id: &str,
    client_id: &str,
    host: Option<&str>,
    activation: Option<ActivationInfo>,
    now_ms: i64,
) -> (r: OtaResponse)
    ensures
        config.ota.websocket_url matches Some(u) ==> r.websocket.url@ == u@,
        config.ota.websocket_url is None ==> r.websocket.url@ == "ws://"@ + (match host {
            Some(h) => h@,
            None => FALLBACK_HOST@,
        }) + "/xiaozhi/v1/"@,
        r.websocket.token@ == (match config.ota.websocket_token {
            Some(t) => t@,
            None => Seq::empty(),
        }),
        r.mqtt is Some <==> config.ota.mqtt.enable,
        r.mqtt matches Some(m) ==> m.username@ == device_id@ && m.endpoint@ == config.ota.mqtt.endpoint@,
        r.server_time.timestamp == now_ms,
        r.server_time.timezone_offset == 480,
        r.server_time.time_zone@ == "Asia/Shanghai"@,
        r.activation == activation,
        r.firmware.version@ == config.ota.firmware_version@,
        r.firmware.url@.len() == 0,
{
    let url = match &config.ota.websocket_url {
        Some(u) => u.clone(),
        None => {
            let h = match host {
                Some(h) => h,
                None => FALLBACK_HOST,
            };
            let mut url = joined("ws://", h);
            url.append("/xiaozhi/v1/");
            url
        },
    };
    let token = match &config.ota.websocket_token {
        Some(t) => t.clone(),
        None => String::new(),
    };
    let mqtt = if config.ota.mqtt.enable {
        Some(mqtt_credentials(config.ota.mqtt.endpoint.as_str(), device_id, client_id, config.auth.signature_key.as_str()))
    } else {
        None
    };
    OtaResponse {
        websocket: WebsocketInfo { url, token },
        mqtt,
        server_time: ServerTimeInfo { timestamp: now_ms, time_zone: "Asia/Shanghai".to_owned(), timezone_offset: 480 },
        activation,
        firmware: FirmwareInfo { version: config.ota.firmware_version.clone(), url: String::new() },
    }
}

/// What an activation attempt comes to.
#[derive(PartialEq, Eq, Structural, Clone, Copy, Debug)]
pub enum ActivationOutcome {
    /// The payload is not signed with `hmac-sha256`.
    UnsupportedAlgorithm,
    /// No challenge is pending for the device, or it expired.
    NoPendingChallenge,
    /// The signature matches: the device is to be activated.
    Verified,
    /// The signature does not match.
    SignatureMismatch,
}

/// The signature a payload presents: `signature`, else `digest`, else empty.
pub open spec fn presented(p: &ActivationPayload) -> Seq<char> {
    match p.signature {
        Some(s) => s@,
        None => match p.digest {
            Some(d) => d@,
            None => Seq::empty(),
        },
    }
}

/// Whether the payload names the supported algorithm.
pub fn algorithm_supported(payload: &ActivationPayload) -> (r: bool)
    ensures
        r == (payload.algorithm@ == ACTIVATION_ALGORITHM@),
{
    crate::json::str_eq(payload.algorithm.as_str(), ACTIVATION_ALGORITHM)
}

/// Checks an activation against the challenge stored for the device.
pub fn check_activation(payload: &ActivationPayload, stored_challenge: Option<&str>, key: &str) -> (r: ActivationOutcome)
    ensures
        payload.algorithm@ != ACTIVATION_ALGORITHM@ ==> r == ActivationOutcome::UnsupportedAlgorithm,
        payload.algorithm@ == ACTIVATION_ALGORITHM@ && stored_challenge is None ==> r == ActivationOutcome::NoPendingChallenge,
        payload.algorithm@ == ACTIVATION_ALGORITHM@ && stored_challenge is Some ==> r == (if presented(payload)
            == expected_signature(key, stored_challenge->0) {
            ActivationOutcome::Verified
        } else {
            ActivationOutcome::SignatureMismatch
        }),
{
    if !algorithm_supported(payload) {
        return ActivationOutcome::UnsupportedAlgorithm;
    }
    let challenge = match stored_challenge {
        Some(c) => c,
        None => {
            return ActivationOutcome::NoPendingChallenge;
        },
    };
    let given: &str = match &payload.signature {
        Some(s) => s.as_str(),
        None => match &payload.digest {
            Some(d) => d.as_str(),
            None => "",
        },
    };
    proof {
        reveal_strlit("");
        assert(""@ =~= Seq::<char>::empty());
    }
    assert(given@ == presented(payload));
    let expected = sign(key, challenge);
    if crate::json::str_eq(given, expected.as_str()) {
        ActivationOutcome::Verified
    } else {
        ActivationOutcome::SignatureMismatch
    }
}

} // verus!
