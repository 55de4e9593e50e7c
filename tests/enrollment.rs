use xiaozhi_server::config::{
    AuthSettings, ChatSettings, DbSettings, LlmSettings, MqttConfig, OtaSettings, ServerConfig, ServerSettings,
    SttSettings, TtsSettings, VadSettings,
};
use xiaozhi_server::setup::{edge_settings, gemini_tts_key, llm_kind, store_kind, tts_kind, LlmKind, StoreKind, TtsKind};
use xiaozhi_server::config::{EdgeTtsConfig, GeminiTtsConfig};
use xiaozhi_server::ota::{
    check_activation, issue_challenge, mqtt_credentials, ota_response, sign, ActivationOutcome, ActivationPayload,
};

fn s(t: &str) -> String {
    t.to_string()
}

fn config(mqtt: bool, url: Option<&str>) -> ServerConfig {
    ServerConfig {
        server: ServerSettings { port: 8002, host: s("0.0.0.0") },
        auth: AuthSettings { enable: true, signature_key: s("Jefe") },
        ota: OtaSettings {
            firmware_version: s("1.2.3"),
            websocket_url: url.map(s),
            websocket_token: None,
            mqtt: MqttConfig { enable: mqtt, endpoint: s("mqtt.example") },
        },
        llm: LlmSettings { provider: s("openai"), api_key: s("k"), model: s("m"), history_limit: 5, system_instruction: None },
        stt: SttSettings { provider: s("local") },
        tts: TtsSettings { provider: s("opus"), gemini: None, edge: None },
        db: DbSettings::default(),
        vad: VadSettings::default(),
        chat: ChatSettings::default(),
    }
}

#[test]
fn hmac_matches_known_vector() {
    assert_eq!(
        sign("Jefe", "what do ya want for nothing?"),
        "5bdcc146bf60754e6a042426089575c75a003f089d2739839dec58b964ec3843"
    );
}

#[test]
fn update_check_builds_addresses() {
    let r = ota_response(&config(false, None), "dev", "cli", Some("host:1"), None, 42);
    assert_eq!(r.websocket.url, "ws://host:1/xiaozhi/v1/");
    assert_eq!(r.websocket.token, "");
    assert!(r.mqtt.is_none());
    assert_eq!(r.server_time.timestamp, 42);
    assert_eq!(r.server_time.timezone_offset, 480);
    assert_eq!(r.firmware.version, "1.2.3");
    let r = ota_response(&config(false, None), "dev", "cli", None, None, 0);
    assert_eq!(r.websocket.url, "ws://localhost:8002/xiaozhi/v1/");
    let r = ota_response(&config(true, Some("ws://fixed/")), "dev", "cli", None, Some(issue_challenge()), 0);
    assert_eq!(r.websocket.url, "ws://fixed/");
    let m = r.mqtt.unwrap();
    assert_eq!(m.client_id, "dev_client");
    assert_eq!(m.publish_topic, "device/dev/pub");
    assert_eq!(m.subscribe_topic, "device/dev/sub");
    assert_eq!(m.password, sign("Jefe", "dev:cli:Jefe"));
    assert_eq!(r.activation.unwrap().challenge.len(), 32);
}

#[test]
fn challenge_is_alphanumeric() {
    let c = issue_challenge();
    assert_eq!(c.challenge.chars().count(), 32);
    assert!(c.challenge.chars().all(|ch| ch.is_ascii_alphanumeric()));
    assert_eq!(c.timeout_ms, 300000);
    let m = mqtt_credentials("e", "d", "c", "k");
    assert_eq!(m.password.len(), 64);
}

fn payload(algorithm: &str, signature: Option<&str>, digest: Option<&str>) -> ActivationPayload {
    ActivationPayload {
        algorithm: s(algorithm),
        challenge: None,
        signature: signature.map(s),
        digest: digest.map(s),
        device_id: None,
    }
}

#[test]
fn activation_outcomes() {
    let good = sign("Jefe", "abc");
    assert_eq!(check_activation(&payload("md5", Some(&good), None), Some("abc"), "Jefe"), ActivationOutcome::UnsupportedAlgorithm);
    assert_eq!(check_activation(&payload("hmac-sha256", Some(&good), None), None, "Jefe"), ActivationOutcome::NoPendingChallenge);
    assert_eq!(check_activation(&payload("hmac-sha256", Some(&good), None), Some("abc"), "Jefe"), ActivationOutcome::Verified);
    assert_eq!(check_activation(&payload("hmac-sha256", None, Some(&good)), Some("abc"), "Jefe"), ActivationOutcome::Verified);
    assert_eq!(check_activation(&payload("hmac-sha256", None, None), Some("abc"), "Jefe"), ActivationOutcome::SignatureMismatch);
}

#[test]
fn provider_selection() {
    let mut c = config(false, None);
    assert_eq!(store_kind(&c), StoreKind::Memory);
    assert_eq!(llm_kind(&c), Some(LlmKind::OpenAi));
    assert_eq!(tts_kind(&c), Some(TtsKind::Opus));
    c.db.db_type = s("sql");
    c.llm.provider = s("mystery");
    c.tts.provider = s("gemini");
    assert_eq!(store_kind(&c), StoreKind::Sql);
    assert_eq!(llm_kind(&c), None);
    assert_eq!(tts_kind(&c), Some(TtsKind::Gemini));
    assert_eq!(gemini_tts_key(&c), None);
    c.tts.gemini = Some(GeminiTtsConfig { api_key: None, model: s("m"), voice_name: s("v") });
    assert_eq!(gemini_tts_key(&c).as_deref(), Some("k"));
    assert_eq!(edge_settings(&c).pitch, "+0Hz");
    c.tts.edge = Some(EdgeTtsConfig { voice: s("x"), rate: s("+5%"), pitch: s("+1Hz"), volume: s("-2%") });
    assert_eq!(edge_settings(&c).voice, "x");
}
