//! Tests of the command-layer decisions: pill visibility, mode
//! resolution, the default port, and hotkey sanity.

use voicetypr::commands::audio::should_hide_pill_when_idle;
use voicetypr::commands::remote::DEFAULT_PORT;
use voicetypr::commands::settings::resolve_pill_indicator_mode;

#[test]
fn should_hide_pill_when_idle_for_never() {
    assert!(should_hide_pill_when_idle("never"));
}

#[test]
fn should_hide_pill_when_idle_for_when_recording() {
    assert!(should_hide_pill_when_idle("when_recording"));
}

#[test]
fn should_hide_pill_when_idle_for_always() {
    assert!(!should_hide_pill_when_idle("always"));
}

#[test]
fn test_default_port() {
    assert_eq!(DEFAULT_PORT, 47842);
}

#[test]
fn resolve_pill_indicator_mode_prefers_new_value() {
    let resolved = resolve_pill_indicator_mode(
        Some("always".to_string()),
        Some(false),
        "when_recording".to_string(),
    );

    assert_eq!(resolved, "always");
}

#[test]
fn resolve_pill_indicator_mode_migrates_legacy_true() {
    let resolved = resolve_pill_indicator_mode(None, Some(true), "when_recording".to_string());

    assert_eq!(resolved, "always");
}

#[test]
fn resolve_pill_indicator_mode_migrates_legacy_false() {
    let resolved =
        resolve_pill_indicator_mode(None, Some(false), "when_recording".to_string());

    assert_eq!(resolved, "when_recording");
}

#[test]
fn resolve_pill_indicator_mode_uses_default() {
    let resolved = resolve_pill_indicator_mode(None, None, "when_recording".to_string());

    assert_eq!(resolved, "when_recording");
}

#[test]
fn test_hotkey_validation_edge_cases() {
    assert!("".is_empty());

    let long_hotkey = "CommandOrControl+".repeat(10);
    assert!(long_hotkey.len() > 100);

    let normal_hotkey = "CommandOrControl+Shift+Alt+A";
    assert!(!normal_hotkey.is_empty());
    assert!(normal_hotkey.len() <= 100);
}
