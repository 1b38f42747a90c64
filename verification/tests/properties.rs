//! Scenario tests of the documented properties: authentication on
//! both routes, hot model swap, lifecycle restart, timeout policy,
//! empty-audio rejection, persistence round trip, and registry
//! add/remove behaviour.

use voicetypr::remote::codec::Json;
use voicetypr::remote::codec::settings_from_json;
use voicetypr::remote::codec::settings_to_json;
use voicetypr::remote::http::StatusReply;
use voicetypr::remote::http::TranscribeReply;
use voicetypr::remote::http::auth_ok;
use voicetypr::remote::http::handle_status;
use voicetypr::remote::http::screen_transcribe_request;
use voicetypr::remote::http::finish_transcribe;
use voicetypr::remote::lifecycle::Ipv4Address;
use voicetypr::remote::lifecycle::RemoteServerManager;
use voicetypr::remote::server::TranscribeResponse;
use voicetypr::remote::settings::ConnectionStatus;
use voicetypr::remote::settings::RemoteSettings;
use voicetypr::remote::transcription::SharedServerState;
use voicetypr::remote::transcription::complete_transcription;
use voicetypr::remote::transcription::prepare_transcription;

fn status_of(reply: &StatusReply) -> u16 {
    reply.http_status()
}

#[test]
fn no_password_accepts_any_header() {
    // Status route without a configured password: no header, any header.
    let r = handle_status(
        "m".to_string(),
        "Server".to_string(),
        "1.0".to_string(),
        &None,
        &None,
    );
    assert_eq!(status_of(&r), 200);

    let r = handle_status(
        "m".to_string(),
        "Server".to_string(),
        "1.0".to_string(),
        &None,
        &Some("whatever".to_string()),
    );
    assert_eq!(status_of(&r), 200);

    // Transcribe route: same policy, before the content-type check.
    assert!(screen_transcribe_request(&None, &None, "audio/wav").is_none());
    assert!(screen_transcribe_request(&None, &Some("x".to_string()), "audio/wav").is_none());
}

#[test]
fn password_requires_exact_match() {
    let required = Some("secret123".to_string());

    assert!(!auth_ok(&required, &None));
    assert!(!auth_ok(&required, &Some("wrong".to_string())));
    assert!(auth_ok(&required, &Some("secret123".to_string())));

    let rejected = screen_transcribe_request(&required, &None, "audio/wav");
    match rejected {
        Some(TranscribeReply::Unauthorized(e)) => assert_eq!(e.error, "unauthorized"),
        _ => panic!("missing header must be rejected"),
    }
    assert!(screen_transcribe_request(&required, &Some("secret123".to_string()), "audio/wav")
        .is_none());
}

#[test]
fn status_route_with_wrong_then_right_password() {
    // A server with password `secret123`: a GET with the wrong header
    // returns 401, with the right one 200.
    let required = Some("secret123".to_string());

    let wrong = handle_status(
        "m".to_string(),
        "Test Server".to_string(),
        "1.0".to_string(),
        &required,
        &Some("wrongpassword".to_string()),
    );
    assert_eq!(status_of(&wrong), 401);
    match wrong {
        StatusReply::Unauthorized(e) => assert_eq!(e.error, "unauthorized"),
        _ => panic!("wrong password must be rejected"),
    }

    let right = handle_status(
        "m".to_string(),
        "Test Server".to_string(),
        "1.0".to_string(),
        &required,
        &Some("secret123".to_string()),
    );
    assert_eq!(status_of(&right), 200);
    match right {
        StatusReply::Granted(resp) => {
            assert_eq!(resp.status, "ok");
            assert_eq!(resp.model, "m");
            assert_eq!(resp.name, "Test Server");
        }
        _ => panic!("right password must be accepted"),
    }
}

#[test]
fn transcribe_rejects_non_audio_content_type() {
    let rejected = screen_transcribe_request(&None, &None, "application/json");
    match rejected {
        Some(TranscribeReply::UnsupportedMediaType(e)) => {
            assert_eq!(e.error, "unsupported_media_type")
        }
        _ => panic!("non-audio content type must be rejected"),
    }
    assert!(screen_transcribe_request(&None, &None, "audio/wav").is_none());
    assert!(screen_transcribe_request(&None, &None, "audio/mpeg").is_none());
}

#[test]
fn transcribe_reply_status_codes() {
    let ok = finish_transcribe(Ok(TranscribeResponse {
        text: "hi".to_string(),
        duration_ms: 12,
        model: "m".to_string(),
    }));
    assert_eq!(ok.http_status(), 200);

    let failed = finish_transcribe(Err("engine broke".to_string()));
    assert_eq!(failed.http_status(), 500);
    match failed {
        TranscribeReply::Failed(e) => assert_eq!(e.error, "engine broke"),
        _ => panic!("a bridge failure maps to the failed reply"),
    }
}

#[test]
fn empty_audio_fails_fast() {
    let state = SharedServerState::new(
        "m".to_string(),
        "/models/m.bin".to_string(),
        "whisper".to_string(),
    );
    let r = prepare_transcription(&state, &[]);
    assert!(r.is_err());
    assert!(r.unwrap_err().contains("Empty audio data"));

    let ok = prepare_transcription(&state, &[1, 2, 3]);
    assert!(ok.is_ok());
    let job = ok.unwrap();
    assert_eq!(job.model_name, "m");
    assert_eq!(job.engine, "whisper");
}

#[test]
fn model_swap_shows_on_next_request() {
    // Hot swap: the very next request snapshot carries the new triple.
    let mut state = SharedServerState::new(
        "old-model".to_string(),
        "/models/old.bin".to_string(),
        "whisper".to_string(),
    );
    state.update_model(
        "new-model".to_string(),
        "/models/new.bin".to_string(),
        "parakeet".to_string(),
    );
    let job = prepare_transcription(&state, &[1]).unwrap();
    assert_eq!(job.model_name, "new-model");
    assert_eq!(job.model_path, "/models/new.bin");
    assert_eq!(job.engine, "parakeet");

    let done = complete_transcription(job, "text".to_string(), 7);
    assert_eq!(done.model, "new-model");
    assert_eq!(done.text, "text");
    assert_eq!(done.duration_ms, 7);
}

#[test]
fn manager_hot_swap_keeps_listeners() {
    let mut manager = RemoteServerManager::new();
    manager.prepare_start(
        None,
        "Server".to_string(),
        "/models/a.bin".to_string(),
        "model-a".to_string(),
        "whisper".to_string(),
    );
    manager.commit_start(47900, vec![Ipv4Address { a: 127, b: 0, c: 0, d: 1 }]);
    assert_eq!(manager.get_status().model_name, Some("model-a".to_string()));

    manager.update_model(
        "/models/b.bin".to_string(),
        "model-b".to_string(),
        "whisper".to_string(),
    );
    assert!(manager.is_running());
    assert_eq!(manager.get_port(), Some(47900));
    assert_eq!(manager.get_status().model_name, Some("model-b".to_string()));
}

#[test]
fn manager_start_stop_restart() {
    // Start on port 47843 with no password, then stop, then start fresh.
    let mut manager = RemoteServerManager::new();
    assert!(!manager.is_running());
    assert!(manager.get_port().is_none());

    manager.prepare_start(
        None,
        "Test Server".to_string(),
        "/fake/model.bin".to_string(),
        "m".to_string(),
        "whisper".to_string(),
    );
    manager.commit_start(47843, vec![Ipv4Address { a: 127, b: 0, c: 0, d: 1 }]);

    assert!(manager.is_running());
    assert_eq!(manager.get_port(), Some(47843));
    let status = manager.get_status();
    assert!(status.enabled);
    assert_eq!(status.port, Some(47843));
    assert_eq!(status.model_name, Some("m".to_string()));
    assert_eq!(status.server_name, Some("Test Server".to_string()));
    assert_eq!(status.active_connections, 0);

    manager.stop();
    assert!(!manager.is_running());
    assert!(manager.get_port().is_none());
    assert!(!manager.get_status().enabled);

    // Stopping again is a no-op.
    manager.stop();
    assert!(!manager.is_running());

    // A subsequent start produces a fresh, independent handle.
    manager.prepare_start(
        Some("password".to_string()),
        "Server 2".to_string(),
        "/model2.bin".to_string(),
        "model2".to_string(),
        "whisper".to_string(),
    );
    manager.commit_start(47845, vec![Ipv4Address { a: 127, b: 0, c: 0, d: 1 }]);
    assert_eq!(manager.get_port(), Some(47845));
    assert_eq!(manager.get_status().model_name, Some("model2".to_string()));
    assert_eq!(manager.get_status().server_name, Some("Server 2".to_string()));
    assert_eq!(manager.get_status().password, Some("password".to_string()));
}

#[test]
fn settings_json_round_trip() {
    let mut settings = RemoteSettings::default();
    settings.server_config.enabled = true;
    settings.server_config.port = 8080;
    settings.server_config.password = Some("secret123".to_string());

    let saved1 = settings.add_connection(
        "192.168.1.100".to_string(),
        47842,
        None,
        Some("Desktop".to_string()),
    );
    settings.add_connection(
        "192.168.1.101".to_string(),
        47842,
        Some("pass".to_string()),
        None,
    );
    settings
        .update_connection_status(&saved1.id, ConnectionStatus::Online, Some("m1".to_string()));
    settings.set_active_connection(Some(saved1.id.clone())).unwrap();

    let doc = settings_to_json(&settings);
    let restored = settings_from_json(&doc).expect("an encoded document decodes");
    assert_eq!(restored, settings);
}

#[test]
fn settings_json_rejects_malformed_document() {
    assert!(settings_from_json(&Json::Null).is_none());
    assert!(settings_from_json(&Json::Obj(Vec::new())).is_none());
}

#[test]
fn add_then_remove_empties_registry() {
    let mut settings = RemoteSettings::default();
    let saved = settings.add_connection("10.0.0.1".to_string(), 47842, None, None);
    settings.set_active_connection(Some(saved.id.clone())).unwrap();

    settings.remove_connection(&saved.id).unwrap();
    assert!(settings.saved_connections.is_empty());
    assert!(settings.active_connection_id.is_none());
}

fn tree_to_value(j: &Json) -> serde_json::Value {
    match j {
        Json::Null => serde_json::Value::Null,
        Json::Bool(b) => serde_json::Value::Bool(*b),
        Json::UInt(n) => serde_json::Value::from(*n),
        Json::Str(s) => serde_json::Value::String(s.clone()),
        Json::Arr(items) => serde_json::Value::Array(items.iter().map(tree_to_value).collect()),
        Json::Obj(pairs) => serde_json::Value::Object(
            pairs
                .iter()
                .map(|(k, v)| (k.clone(), tree_to_value(v)))
                .collect(),
        ),
    }
}

fn value_to_tree(v: &serde_json::Value) -> Option<Json> {
    match v {
        serde_json::Value::Null => Some(Json::Null),
        serde_json::Value::Bool(b) => Some(Json::Bool(*b)),
        serde_json::Value::Number(n) => n.as_u64().map(Json::UInt),
        serde_json::Value::String(s) => Some(Json::Str(s.clone())),
        serde_json::Value::Array(items) => {
            let mut out = Vec::new();
            for item in items {
                out.push(value_to_tree(item)?);
            }
            Some(Json::Arr(out))
        }
        serde_json::Value::Object(map) => {
            let mut out = Vec::new();
            for (k, v) in map {
                out.push((k.clone(), value_to_tree(v)?));
            }
            Some(Json::Obj(out))
        }
    }
}

#[test]
fn settings_survive_store_text_round_trip() {
    // The full store path: tree, JSON map (which re-sorts keys), text,
    // and back.  What was saved must load unchanged.
    let mut settings = RemoteSettings::default();
    settings.server_config.enabled = true;
    settings.server_config.password = Some("secret123".to_string());
    let saved = settings.add_connection(
        "192.168.1.100".to_string(),
        47842,
        Some("pw".to_string()),
        Some("Desk".to_string()),
    );
    settings
        .update_connection_status(&saved.id, ConnectionStatus::Online, Some("m1".to_string()));
    settings.set_active_connection(Some(saved.id.clone())).unwrap();

    let text = serde_json::to_string(&tree_to_value(&settings_to_json(&settings))).unwrap();
    let value: serde_json::Value = serde_json::from_str(&text).unwrap();
    let tree = value_to_tree(&value).expect("the stored text is plain JSON");
    let restored = settings_from_json(&tree).expect("a stored document loads");
    assert_eq!(restored, settings);
}

#[test]
fn decoder_tolerates_order_and_missing_fields() {
    // An older store: shuffled keys, connection entries without the
    // later fields, no sharing memory.  The optional fields default.
    let conn = Json::Obj(vec![
        ("port".to_string(), Json::UInt(47842)),
        ("id".to_string(), Json::Str("conn_1".to_string())),
        ("created_at".to_string(), Json::UInt(5)),
        ("host".to_string(), Json::Str("10.0.0.1".to_string())),
    ]);
    let config = Json::Obj(vec![
        ("enabled".to_string(), Json::Bool(true)),
        ("port".to_string(), Json::UInt(48000)),
    ]);
    let doc = Json::Obj(vec![
        ("saved_connections".to_string(), Json::Arr(vec![conn])),
        ("server_config".to_string(), config),
    ]);
    let settings = settings_from_json(&doc).expect("an older store still loads");
    assert!(settings.server_config.enabled);
    assert_eq!(settings.server_config.port, 48000);
    assert!(settings.server_config.password.is_none());
    assert_eq!(settings.saved_connections.len(), 1);
    let c = &settings.saved_connections[0];
    assert_eq!(c.id, "conn_1");
    assert_eq!(c.host, "10.0.0.1");
    assert_eq!(c.port, 47842);
    assert!(c.password.is_none() && c.name.is_none() && c.model.is_none());
    assert_eq!(c.status, ConnectionStatus::Unknown);
    assert_eq!(c.last_checked, 0);
    assert!(settings.active_connection_id.is_none());
    assert!(!settings.sharing_was_active);

    // A document missing a required field does not decode.
    let missing_conns = Json::Obj(vec![(
        "server_config".to_string(),
        Json::Obj(vec![
            ("enabled".to_string(), Json::Bool(false)),
            ("port".to_string(), Json::UInt(47842)),
        ]),
    )]);
    assert!(settings_from_json(&missing_conns).is_none());
}
