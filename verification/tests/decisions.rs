//! Tests of the remaining decisions: command cores, client response
//! classification, bind planning, model catalogue behaviour, caches,
//! and the text helpers behind them.

use voicetypr::commands::audio::ActiveEngineSelection;
use voicetypr::commands::audio::RecordingConfig;
use voicetypr::commands::audio::RecordingState;
use voicetypr::commands::audio::RecordingStateResponse;
use voicetypr::commands::audio::select_best_fallback_model;
use voicetypr::commands::license::CachedLicense;
use voicetypr::commands::license::LicenseState;
use voicetypr::commands::license::LicenseStatus;
use voicetypr::commands::license::format_duration;
use voicetypr::commands::license::grace_days_left;
use voicetypr::commands::license::hours_to_days;
use voicetypr::commands::license::should_delete_invalid_license;
use voicetypr::commands::license::trial_days_remaining;
use voicetypr::commands::remote::SharingTransition;
use voicetypr::commands::remote::add_server_with_probe;
use voicetypr::commands::remote::choose_shared_model;
use voicetypr::commands::remote::classify_response_status;
use voicetypr::commands::remote::evaluate_firewall;
use voicetypr::commands::remote::firewall_state_enabled;
use voicetypr::commands::remote::format_local_ips;
use voicetypr::commands::remote::interpret_status_response;
use voicetypr::commands::remote::interpret_transcribe_response;
use voicetypr::commands::remote::record_sharing_started;
use voicetypr::commands::remote::record_sharing_stopped;
use voicetypr::commands::remote::refresh_cached_model;
use voicetypr::commands::remote::resolve_server_name;
use voicetypr::commands::remote::set_active_server_transition;
use voicetypr::commands::remote::update_server_with_probe;
use voicetypr::menu::tray::format_tray_model_label;
use voicetypr::menu::tray::should_mark_model_selected;
use voicetypr::remote::lifecycle::InterfaceIp;
use voicetypr::remote::lifecycle::Ipv4Address;
use voicetypr::remote::lifecycle::NetInterface;
use voicetypr::remote::lifecycle::bind_outcome;
use voicetypr::remote::lifecycle::plan_bind_ips;
use voicetypr::remote::server::StatusResponse;
use voicetypr::remote::settings::ConnectionStatus;
use voicetypr::remote::settings::RemoteSettings;
use voicetypr::remote::transcription::EngineRoute;
use voicetypr::remote::transcription::route_for_engine;
use voicetypr::whisper::cache::TranscriberCache;
use voicetypr::whisper::manager::ModelFileProbe;
use voicetypr::whisper::manager::WhisperManager;
use voicetypr::whisper::manager::chunk_within_limit;
use voicetypr::whisper::manager::download_precheck;
use voicetypr::whisper::manager::DownloadPrecheck;
use voicetypr::whisper::manager::reported_size_acceptable;
use voicetypr::whisper::manager::verify_download_checksum;

#[test]
fn response_status_classification() {
    assert_eq!(classify_response_status(401), Some("Authentication failed".to_string()));
    assert_eq!(classify_response_status(200), None);
    assert_eq!(classify_response_status(204), None);
    assert_eq!(classify_response_status(500), Some("Server error: 500".to_string()));
    assert_eq!(classify_response_status(404), Some("Server error: 404".to_string()));
}

#[test]
fn transcribe_response_interpretation() {
    assert_eq!(
        interpret_transcribe_response(401, ""),
        Err("Authentication failed".to_string())
    );
    assert_eq!(
        interpret_transcribe_response(500, ""),
        Err("Server error: 500".to_string())
    );
    assert_eq!(
        interpret_transcribe_response(200, "{\"text\":\"hello there\",\"duration_ms\":5}"),
        Ok("hello there".to_string())
    );
    assert_eq!(
        interpret_transcribe_response(200, "{\"duration_ms\":5}"),
        Err("Invalid response: missing 'text' field".to_string())
    );
    let garbled = interpret_transcribe_response(200, "not json at all");
    assert!(garbled.unwrap_err().starts_with("Failed to parse response"));
}

#[test]
fn status_response_interpretation() {
    let body = "{\"status\":\"ok\",\"version\":\"1.2.3\",\"model\":\"base.en\",\"name\":\"Desk\"}";
    let st = interpret_status_response(200, body).unwrap();
    assert_eq!(st.status, "ok");
    assert_eq!(st.version, "1.2.3");
    assert_eq!(st.model, "base.en");
    assert_eq!(st.name, "Desk");

    assert!(interpret_status_response(200, "{\"status\":\"ok\"}").is_err());
    assert_eq!(
        interpret_status_response(401, body),
        Err("Authentication failed".to_string())
    );
}

#[test]
fn sharing_mutual_exclusion_and_restore() {
    let mut settings = RemoteSettings::default();
    let saved = settings.add_connection("10.0.0.9".to_string(), 47842, None, None);

    // Selecting a remote server while sharing runs stops sharing and
    // remembers it.
    let t = set_active_server_transition(
        &mut settings,
        Some(saved.id.clone()),
        true,
        Some(47842),
        None,
    )
    .unwrap();
    assert_eq!(t, SharingTransition::StopSharing);
    assert!(settings.sharing_was_active);
    assert_eq!(settings.active_connection_id, Some(saved.id.clone()));

    // Clearing the selection restores sharing and clears the memory.
    let t = set_active_server_transition(&mut settings, None, false, Some(48000), None).unwrap();
    assert_eq!(
        t,
        SharingTransition::RestoreSharing { port: 48000, password: None }
    );
    assert!(!settings.sharing_was_active);
    assert!(settings.active_connection_id.is_none());

    // An unknown id is rejected.
    let r = set_active_server_transition(
        &mut settings,
        Some("missing".to_string()),
        false,
        None,
        None,
    );
    assert_eq!(r.unwrap_err(), "Connection 'missing' not found");
}

#[test]
fn sharing_state_persistence_flags() {
    let mut settings = RemoteSettings::default();
    record_sharing_started(&mut settings, 48001, Some("pw".to_string()));
    assert!(settings.server_config.enabled);
    assert_eq!(settings.server_config.port, 48001);
    assert_eq!(settings.server_config.password, Some("pw".to_string()));

    record_sharing_stopped(&mut settings);
    assert!(!settings.server_config.enabled);
    assert_eq!(settings.server_config.port, 48001);
}

#[test]
fn server_name_resolution() {
    assert_eq!(
        resolve_server_name(Some("Given".to_string()), Some("host".to_string())),
        "Given"
    );
    assert_eq!(resolve_server_name(None, Some("host".to_string())), "host");
    assert_eq!(resolve_server_name(None, None), "VoiceTypr Server");
}

#[test]
fn adding_with_and_without_probe() {
    let mut settings = RemoteSettings::default();
    let probed = add_server_with_probe(
        &mut settings,
        "10.0.0.1".to_string(),
        47842,
        None,
        None,
        Some(StatusResponse {
            status: "ok".to_string(),
            version: "1".to_string(),
            model: "base.en".to_string(),
            name: "Desk".to_string(),
        }),
    );
    assert_eq!(probed.name, Some("Desk".to_string()));
    assert_eq!(probed.model, Some("base.en".to_string()));

    let unreachable = add_server_with_probe(
        &mut settings,
        "10.0.0.2".to_string(),
        48000,
        None,
        None,
        None,
    );
    assert_eq!(unreachable.name, Some("10.0.0.2:48000".to_string()));
    assert!(unreachable.model.is_none());
    assert_eq!(settings.saved_connections.len(), 2);
}

#[test]
fn updating_a_server_keeps_its_id() {
    let mut settings = RemoteSettings::default();
    let saved = add_server_with_probe(
        &mut settings,
        "10.0.0.1".to_string(),
        47842,
        None,
        Some("Old".to_string()),
        None,
    );

    let updated = update_server_with_probe(
        &mut settings,
        &saved.id,
        "10.0.0.5".to_string(),
        48000,
        Some("pw".to_string()),
        None,
        None,
    )
    .unwrap();
    assert_eq!(updated.id, saved.id);
    assert_eq!(updated.host, "10.0.0.5");
    assert_eq!(updated.name, Some("10.0.0.5:48000".to_string()));
    assert_eq!(settings.saved_connections.len(), 1);

    let missing = update_server_with_probe(
        &mut settings,
        "missing",
        "h".to_string(),
        1,
        None,
        None,
        None,
    );
    assert!(missing.is_err());
}

#[test]
fn probe_refreshes_cached_model() {
    let mut settings = RemoteSettings::default();
    let saved = settings.add_connection("10.0.0.1".to_string(), 47842, None, None);

    let changed = refresh_cached_model(&mut settings, &saved.id, &"new-model".to_string());
    assert!(changed);
    assert_eq!(
        settings.get_connection(&saved.id).unwrap().model,
        Some("new-model".to_string())
    );

    let changed_again = refresh_cached_model(&mut settings, &saved.id, &"new-model".to_string());
    assert!(!changed_again);
}

#[test]
fn bind_planning_and_policy() {
    let interfaces = vec![
        NetInterface {
            name: "lo".to_string(),
            ip: InterfaceIp::V4(Ipv4Address { a: 127, b: 0, c: 0, d: 1 }),
        },
        NetInterface {
            name: "eth0".to_string(),
            ip: InterfaceIp::V4(Ipv4Address { a: 192, b: 168, c: 1, d: 5 }),
        },
        NetInterface { name: "wg0".to_string(), ip: InterfaceIp::V6 },
    ];
    let plan = plan_bind_ips(&interfaces);
    assert_eq!(plan.len(), 2);
    assert_eq!(plan[0], Ipv4Address { a: 127, b: 0, c: 0, d: 1 });
    assert_eq!(plan[1], Ipv4Address { a: 192, b: 168, c: 1, d: 5 });

    // Loopback bind failure is fatal.
    let failed = bind_outcome(&plan, &vec![false, true]);
    assert_eq!(failed.unwrap_err(), "Failed to bind loopback address");

    // Another interface failing is skipped.
    let partial = bind_outcome(&plan, &vec![true, false]).unwrap();
    assert_eq!(partial.len(), 1);
    assert_eq!(partial[0], Ipv4Address { a: 127, b: 0, c: 0, d: 1 });
}

#[test]
fn local_ip_display() {
    let interfaces = vec![
        NetInterface {
            name: "lo".to_string(),
            ip: InterfaceIp::V4(Ipv4Address { a: 127, b: 0, c: 0, d: 1 }),
        },
        NetInterface {
            name: "eth0".to_string(),
            ip: InterfaceIp::V4(Ipv4Address { a: 192, b: 168, c: 1, d: 5 }),
        },
        NetInterface {
            name: "ll0".to_string(),
            ip: InterfaceIp::V4(Ipv4Address { a: 169, b: 254, c: 0, d: 7 }),
        },
    ];
    let shown = format_local_ips(&interfaces);
    assert_eq!(shown, vec!["192.168.1.5 (eth0)".to_string()]);

    let nothing = format_local_ips(&Vec::new());
    assert_eq!(nothing, vec!["No network connection".to_string()]);
}

#[test]
fn firewall_standing() {
    let off = evaluate_firewall(false, false);
    assert!(!off.firewall_enabled && off.app_allowed && !off.may_be_blocked);

    let blocked = evaluate_firewall(true, false);
    assert!(blocked.firewall_enabled && !blocked.app_allowed && blocked.may_be_blocked);

    let allowed = evaluate_firewall(true, true);
    assert!(allowed.firewall_enabled && allowed.app_allowed && !allowed.may_be_blocked);

    assert!(firewall_state_enabled("Firewall is enabled. (State = 1)"));
    assert!(!firewall_state_enabled("Firewall is disab"));
}

#[test]
fn engine_routing() {
    assert_eq!(route_for_engine("parakeet"), EngineRoute::Parakeet);
    assert_eq!(route_for_engine("whisper"), EngineRoute::Whisper);
    assert_eq!(route_for_engine("anything-else"), EngineRoute::Whisper);
}

#[test]
fn catalogue_and_download_marks() {
    let mut manager = WhisperManager::new_for_test("/tmp/models".to_string());
    assert!(!manager.has_downloaded_models());
    assert!(manager.get_first_downloaded_model().is_none());
    assert!(manager.get_model_path("base.en").is_none());

    // A probe naming base.en with a full-size file marks it downloaded;
    // a large-v3 file below the 5% tolerance does not count.
    let probes = vec![
        ModelFileProbe { name: "base.en".to_string(), size: 1024 },
        ModelFileProbe { name: "large-v3".to_string(), size: 512 },
    ];
    manager.refresh_downloaded_status(&probes);
    assert!(manager.has_downloaded_models());
    assert_eq!(manager.get_downloaded_model_names(), vec!["base.en".to_string()]);
    assert_eq!(
        manager.get_model_path("base.en"),
        Some("/tmp/models/base.en.bin".to_string())
    );
    assert_eq!(manager.get_first_downloaded_model(), Some("base.en".to_string()));

    // Both present on disk, whatever the sizes.
    assert_eq!(manager.list_downloaded_files(&probes).len(), 2);

    // With the recommended model downloaded too, it wins auto-selection
    // despite being slower.
    let full = vec![
        ModelFileProbe { name: "base.en".to_string(), size: 1024 },
        ModelFileProbe { name: "large-v3".to_string(), size: 2048 },
    ];
    manager.refresh_downloaded_status(&full);
    assert_eq!(manager.get_first_downloaded_model(), Some("large-v3".to_string()));
}

#[test]
fn model_name_validation() {
    let manager = WhisperManager::new_for_test("/tmp/models".to_string());
    assert!(manager.is_valid_model_name("base.en"));
    assert!(!manager.is_valid_model_name("unknown-model"));
    assert!(!manager.is_valid_model_name("../etc/passwd"));
    assert!(!manager.is_valid_model_name("base.en/../../x"));

    let info = manager.get_model_info("large-v3");
    assert!(info.is_err());
    assert!(info.unwrap_err().is_empty() == false);

    let bad = manager.get_model_info("../x");
    assert_eq!(bad.unwrap_err(), "Invalid model name: '../x'");
}

#[test]
fn real_catalogue_model_info() {
    let manager = WhisperManager::new("/models".to_string());
    let (info, path) = manager.get_model_info("base.en").unwrap();
    assert_eq!(info.size, 148_897_792);
    assert_eq!(info.sha256, "137c40403d78fd54d454da0f9bd998f78703390c");
    assert_eq!(path, "/models/base.en.bin");
}

#[test]
fn catalogue_orderings() {
    let manager = WhisperManager::new_for_test("/tmp/models".to_string());
    let by_size = manager.get_models_by_size();
    assert_eq!(
        by_size,
        vec![
            "base.en".to_string(),
            "large-v3-q5_0".to_string(),
            "large-v3".to_string()
        ]
    );

    let by_speed = manager.get_models_sorted("speed");
    assert_eq!(by_speed[0].0, "base.en");
    assert_eq!(by_speed[2].0, "large-v3");

    let by_accuracy = manager.get_models_sorted("accuracy");
    assert_eq!(by_accuracy[0].0, "large-v3");

    // Balanced: 4*speed + 6*accuracy = 62 (base.en), 62 (large-v3), 64 (q5).
    let balanced = manager.get_models_sorted("balanced");
    assert_eq!(balanced[0].0, "large-v3-q5_0");
}

#[test]
fn download_guards() {
    // sha1("hello"), then a wrong digit.
    assert!(verify_download_checksum(
        b"hello",
        "aaf4c61ddcc5e8a2dabede0f3b482cd9aea9434d"
    ));
    assert!(!verify_download_checksum(
        b"hello",
        "aaf4c61ddcc5e8a2dabede0f3b482cd9aea9434e"
    ));
    // sha256("hello").
    assert!(verify_download_checksum(
        b"hello",
        "2cf24dba5fb0a30e26e83b2ac5b9e29e1b161e5c1fa7425e73043362938b9824"
    ));
    assert!(!verify_download_checksum(
        b"hello",
        "0cf24dba5fb0a30e26e83b2ac5b9e29e1b161e5c1fa7425e73043362938b9824"
    ));
    // An expectation of another length cannot be checked.
    assert!(verify_download_checksum(b"hello", "test_hash"));

    assert_eq!(download_precheck(None, 1000), DownloadPrecheck::Fresh);
    assert_eq!(download_precheck(Some(949), 1000), DownloadPrecheck::RemoveCorrupted);
    assert_eq!(download_precheck(Some(950), 1000), DownloadPrecheck::AlreadyComplete);

    assert!(reported_size_acceptable(1000, 1000));
    assert!(reported_size_acceptable(1100, 1000));
    assert!(!reported_size_acceptable(1101, 1000));
    assert!(reported_size_acceptable(900, 1000));
    assert!(!reported_size_acceptable(899, 1000));

    assert!(chunk_within_limit(1000, 10, 1000));
    assert!(!chunk_within_limit(1000, 11, 1000));
}

#[test]
fn transcriber_cache_eviction() {
    let mut cache = TranscriberCache::with_capacity(2);
    cache.touch("/models/a.bin");
    cache.touch("/models/b.bin");
    cache.touch("/models/c.bin");
    assert_eq!(cache.size(), 2);
    assert!(cache.contains("/models/c.bin"));
    assert!(cache.contains("/models/b.bin"));
    assert!(!cache.contains("/models/a.bin"));

    // Touching an already-cached model does not grow the cache.
    cache.touch("/models/b.bin");
    assert_eq!(cache.size(), 2);
}

#[test]
fn fallback_model_selection() {
    let available = vec!["large-v3-turbo".to_string(), "base.en".to_string()];
    let priority = vec!["base.en".to_string()];

    // A stem match on the requested name wins.
    assert_eq!(
        select_best_fallback_model(&available, "large-v3", &priority),
        "large-v3-turbo"
    );
    // Without a request, the priority list decides.
    assert_eq!(select_best_fallback_model(&available, "", &priority), "base.en");
    // No match at all: the first available model.
    assert_eq!(
        select_best_fallback_model(&available, "tiny", &Vec::new()),
        "large-v3-turbo"
    );
    // Nothing available at all.
    assert_eq!(
        select_best_fallback_model(&Vec::new(), "", &Vec::new()),
        "base.en"
    );
}

#[test]
fn tray_labels() {
    assert!(should_mark_model_selected(true, "base.en", "base.en"));
    assert!(!should_mark_model_selected(false, "base.en", "base.en"));
    assert!(!should_mark_model_selected(true, "base.en", "large-v3"));

    assert_eq!(format_tray_model_label(false, "base.en", None), "Model: None");
    assert_eq!(format_tray_model_label(true, "", None), "Model: None");
    assert_eq!(format_tray_model_label(true, "base.en", None), "Model: base.en");
    assert_eq!(
        format_tray_model_label(true, "base.en", Some("Base (English)".to_string())),
        "Model: Base (English)"
    );
}

#[test]
fn recording_state_names() {
    let r = RecordingStateResponse::from_state(RecordingState::Idle);
    assert_eq!(r.state, "idle");
    assert!(r.error.is_none());
    let r = RecordingStateResponse::from_state(RecordingState::Transcribing);
    assert_eq!(r.state, "transcribing");
}

#[test]
fn engine_selection_names() {
    let whisper = ActiveEngineSelection::Whisper {
        model_name: "base.en".to_string(),
        model_path: "/m/base.en.bin".to_string(),
    };
    assert_eq!(whisper.engine_name(), "whisper");
    assert_eq!(whisper.model_name(), "base.en");

    let remote = ActiveEngineSelection::Remote {
        server_id: "conn_1".to_string(),
        server_name: "Desk".to_string(),
        host: "10.0.0.1".to_string(),
        port: 47842,
        password: None,
    };
    assert_eq!(remote.engine_name(), "remote");
    assert_eq!(remote.model_name(), "Desk");
}

#[test]
fn recording_config_freshness() {
    let config = RecordingConfig {
        show_pill_widget: true,
        pill_indicator_mode: "when_recording".to_string(),
        ai_enabled: false,
        ai_provider: "groq".to_string(),
        ai_model: "".to_string(),
        current_model: "".to_string(),
        current_engine: "whisper".to_string(),
        language: "en".to_string(),
        translate_to_english: false,
        show_recording_status: true,
        loaded_at_ms: 1_000_000,
    };
    assert!(config.fresh_at(1_000_000));
    assert!(config.fresh_at(1_299_999));
    assert!(!config.fresh_at(1_300_000));
    assert!(config.fresh_at(999_000));
}

#[test]
fn license_cache_and_grace() {
    let status = LicenseStatus {
        status: LicenseState::Licensed,
        trial_days_left: None,
        license_type: Some("pro".to_string()),
        license_key: None,
        expires_at: None,
    };
    let cached = CachedLicense::new(status);
    assert!(cached.is_valid());
    assert_eq!(cached.valid_at(cached.cached_at_ms + 21_599_999), true);
    assert_eq!(cached.valid_at(cached.cached_at_ms + 21_600_000), false);
    assert_eq!(cached.age_at(cached.cached_at_ms + 5), 5);

    assert_eq!(hours_to_days(0), 0);
    assert_eq!(hours_to_days(24), 1);
    assert_eq!(hours_to_days(25), 2);
    assert_eq!(hours_to_days(-25), -1);

    assert_eq!(trial_days_remaining(5, 24), 4);
    assert_eq!(trial_days_remaining(1, 48), 0);

    assert_eq!(grace_days_left(0, 2 * 86_400_000, 90), Some(88));
    assert_eq!(grace_days_left(0, 90 * 86_400_000, 90), None);

    assert_eq!(format_duration(90_061_000), "1 days, 1 hours");
    assert_eq!(format_duration(3_660_000), "1 hours, 1 minutes");
    assert_eq!(format_duration(60_000), "1 minutes");

    assert!(should_delete_invalid_license("Error: INVALID LICENSE key"));
    assert!(should_delete_invalid_license("the license expired yesterday"));
    assert!(!should_delete_invalid_license("network timeout"));
}

#[test]
fn probe_updates_connection_status() {
    let mut settings = RemoteSettings::default();
    let saved = settings.add_connection("10.0.0.1".to_string(), 47842, None, None);
    assert_eq!(saved.status, ConnectionStatus::Unknown);
    assert_eq!(saved.last_checked, 0);

    settings.update_connection_status(&saved.id, ConnectionStatus::Online, Some("m".to_string()));
    let probed = settings.get_connection(&saved.id).unwrap();
    assert_eq!(probed.status, ConnectionStatus::Online);
    assert_eq!(probed.model, Some("m".to_string()));
    assert!(probed.last_checked > 0);

    // A probe without a model keeps the cached one.
    settings.update_connection_status(&saved.id, ConnectionStatus::Offline, None);
    let probed = settings.get_connection(&saved.id).unwrap();
    assert_eq!(probed.status, ConnectionStatus::Offline);
    assert_eq!(probed.model, Some("m".to_string()));

    // An unknown id changes nothing.
    settings.update_connection_status("missing", ConnectionStatus::Online, None);
    assert_eq!(settings.saved_connections.len(), 1);
}

#[test]
fn shared_model_choice() {
    let mut whisper = WhisperManager::new_for_test("/tmp/models".to_string());

    // Nothing selected and nothing downloaded: no model to share.
    let none = choose_shared_model("", "whisper".to_string(), &whisper);
    assert_eq!(
        none.unwrap_err(),
        "No model downloaded. Please download a model first."
    );

    whisper.refresh_downloaded_status(&vec![ModelFileProbe {
        name: "base.en".to_string(),
        size: 1024,
    }]);

    // Nothing selected: the best downloaded model is shared.
    let auto = choose_shared_model("", "whisper".to_string(), &whisper).unwrap();
    assert_eq!(auto.0, "base.en");
    assert_eq!(auto.1, "/tmp/models/base.en.bin");
    assert_eq!(auto.2, "whisper");

    // A selected whisper model must be downloaded.
    let missing = choose_shared_model("large-v3", "whisper".to_string(), &whisper);
    assert_eq!(
        missing.unwrap_err(),
        "Model 'large-v3' not found or not downloaded"
    );

    // Other engines resolve their model at transcription time.
    let parakeet = choose_shared_model("pk-model", "parakeet".to_string(), &whisper).unwrap();
    assert_eq!(parakeet.0, "pk-model");
    assert_eq!(parakeet.1, "");
}
