//! Tests of the model catalogue, size limits, the transcriber cache
//! and the recording size check.

use voicetypr::audio::recorder::RecordingSize;
use voicetypr::remote::transcription::TranscriptionServerConfig;
use voicetypr::whisper::cache::TranscriberCache;
use voicetypr::whisper::manager::ModelSize;

#[test]
fn test_model_size_validation() {
    let too_small = ModelSize::new(5 * 1024 * 1024);
    assert!(too_small.is_err());

    let too_large = ModelSize::new(4 * 1024 * 1024 * 1024);
    assert!(too_large.is_err());

    let valid_small = ModelSize::new(50 * 1024 * 1024);
    assert!(valid_small.is_ok());
    assert_eq!(valid_small.unwrap().as_bytes(), 50 * 1024 * 1024);

    let valid_large = ModelSize::new(3 * 1024 * 1024 * 1024);
    assert!(valid_large.is_ok());
}

#[test]
fn test_cache_basic_operations() {
    let mut cache = TranscriberCache::new();
    assert_eq!(cache.size(), 0);

    let cache_large = TranscriberCache::with_capacity(5);
    assert_eq!(cache_large.capacity(), 5);

    cache.clear();
    assert_eq!(cache.size(), 0);
}

#[test]
fn test_recording_size_check() {
    let result = RecordingSize::check(100 * 1024 * 1024);
    assert!(result.is_ok());

    let result = RecordingSize::check(600 * 1024 * 1024);
    assert!(result.is_err());
}

#[test]
fn test_transcription_server_config() {
    let config = TranscriptionServerConfig {
        server_name: "Test Server".to_string(),
        password: Some("secret".to_string()),
        model_path: "/models/test.bin".to_string(),
        model_name: "test-model".to_string(),
    };

    assert_eq!(config.server_name, "Test Server");
    assert_eq!(config.password, Some("secret".to_string()));
    assert_eq!(config.model_name, "test-model");
}
