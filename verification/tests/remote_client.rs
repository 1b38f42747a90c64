//! Tests of the remote transcription client: URLs, timeout policy,
//! connection descriptors and requests.

use voicetypr::remote::client::RemoteServerConnection;
use voicetypr::remote::client::TranscriptionRequest;
use voicetypr::remote::client::TranscriptionSource;
use voicetypr::remote::client::calculate_timeout_ms;

#[test]
fn test_connection_urls() {
    let conn = RemoteServerConnection::new("localhost".to_string(), 47842, None);
    assert!(conn.status_url().contains("/api/v1/status"));
    assert!(conn.transcribe_url().contains("/api/v1/transcribe"));
}

#[test]
fn test_timeout_calculation_live_30s() {
    let timeout = calculate_timeout_ms(30_000, TranscriptionSource::LiveRecording);
    assert_eq!(timeout, 90_000);
}

#[test]
fn test_timeout_calculation_live_60s() {
    // 30 s base plus twice the duration would be 150 s, but the live
    // policy caps the timeout at two minutes.
    let timeout = calculate_timeout_ms(60_000, TranscriptionSource::LiveRecording);
    assert_eq!(timeout, 120_000);
}

#[test]
fn test_timeout_calculation_live_caps_at_2min() {
    let timeout = calculate_timeout_ms(120_000, TranscriptionSource::LiveRecording);
    assert_eq!(timeout, 120_000);
}

#[test]
fn test_timeout_calculation_upload_1min() {
    let timeout = calculate_timeout_ms(60_000, TranscriptionSource::Upload);
    assert_eq!(timeout, 240_000);
}

#[test]
fn test_timeout_calculation_upload_10min() {
    let timeout = calculate_timeout_ms(600_000, TranscriptionSource::Upload);
    assert_eq!(timeout, 1_860_000);
}

#[test]
fn test_timeout_calculation_upload_1hour() {
    let timeout = calculate_timeout_ms(3_600_000, TranscriptionSource::Upload);
    assert_eq!(timeout, 10_860_000);
}

#[test]
fn test_timeout_calculation_minimum() {
    let timeout = calculate_timeout_ms(1_000, TranscriptionSource::LiveRecording);
    assert_eq!(timeout, 32_000);
}

#[test]
fn test_remote_server_connection_creation() {
    let conn = RemoteServerConnection::new(
        "192.168.1.100".to_string(),
        47842,
        Some("mypassword".to_string()),
    );

    assert_eq!(conn.host, "192.168.1.100");
    assert_eq!(conn.port, 47842);
    assert_eq!(conn.password, Some("mypassword".to_string()));
}

#[test]
fn test_remote_server_connection_no_password() {
    let conn = RemoteServerConnection::new("10.0.0.5".to_string(), 8080, None);

    assert_eq!(conn.host, "10.0.0.5");
    assert_eq!(conn.port, 8080);
    assert!(conn.password.is_none());
}

#[test]
fn test_remote_server_status_url() {
    let conn = RemoteServerConnection::new("192.168.1.100".to_string(), 47842, None);

    assert_eq!(conn.status_url(), "http://192.168.1.100:47842/api/v1/status");
}

#[test]
fn test_remote_server_transcribe_url() {
    let conn = RemoteServerConnection::new("192.168.1.100".to_string(), 47842, None);

    assert_eq!(
        conn.transcribe_url(),
        "http://192.168.1.100:47842/api/v1/transcribe"
    );
}

#[test]
fn test_remote_server_urls_custom_port() {
    let conn = RemoteServerConnection::new("localhost".to_string(), 9999, None);

    assert_eq!(conn.status_url(), "http://localhost:9999/api/v1/status");
    assert_eq!(
        conn.transcribe_url(),
        "http://localhost:9999/api/v1/transcribe"
    );
}

#[test]
fn test_transcription_request_live() {
    let audio_data = vec![0u8; 1000];
    let request = TranscriptionRequest::new(audio_data.clone(), TranscriptionSource::LiveRecording);

    assert_eq!(request.audio_data, audio_data);
    assert_eq!(request.source, TranscriptionSource::LiveRecording);
}

#[test]
fn test_transcription_request_upload() {
    let audio_data = vec![1u8; 5000];
    let request = TranscriptionRequest::new(audio_data.clone(), TranscriptionSource::Upload);

    assert_eq!(request.audio_data, audio_data);
    assert_eq!(request.source, TranscriptionSource::Upload);
}

#[test]
fn test_remote_server_connection_display_name() {
    let conn = RemoteServerConnection::new("192.168.1.100".to_string(), 47842, None);
    assert_eq!(conn.display_name(), "192.168.1.100:47842");

    let conn2 = RemoteServerConnection::new("my-desktop.local".to_string(), 8080, None);
    assert_eq!(conn2.display_name(), "my-desktop.local:8080");
}
