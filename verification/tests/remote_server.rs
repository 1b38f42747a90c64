//! Tests of the server configuration, password validation and server
//! status.

use voicetypr::remote::server::RemoteServerConfig;
use voicetypr::remote::server::ServerStatus;

#[test]
fn test_default_config() {
    let config = RemoteServerConfig::default();
    assert_eq!(config.port, 47842);
    assert!(config.password.is_none());
    assert!(!config.enabled);
}

#[test]
fn test_server_config_defaults() {
    let config = RemoteServerConfig::default();
    assert_eq!(config.port, 47842);
    assert!(config.password.is_none());
    assert!(!config.enabled);
}

#[test]
fn test_server_config_custom() {
    let config = RemoteServerConfig {
        port: 8080,
        password: Some("secret123".to_string()),
        enabled: true,
    };

    assert_eq!(config.port, 8080);
    assert_eq!(config.password, Some("secret123".to_string()));
    assert!(config.enabled);
}

#[test]
fn test_password_validation_correct() {
    let config = RemoteServerConfig {
        port: 47842,
        password: Some("secret123".to_string()),
        enabled: true,
    };

    assert!(config.validate_password(Some("secret123")));
}

#[test]
fn test_password_validation_wrong() {
    let config = RemoteServerConfig {
        port: 47842,
        password: Some("secret123".to_string()),
        enabled: true,
    };

    assert!(!config.validate_password(Some("wrongpassword")));
}

#[test]
fn test_password_validation_missing_when_required() {
    let config = RemoteServerConfig {
        port: 47842,
        password: Some("secret123".to_string()),
        enabled: true,
    };

    assert!(!config.validate_password(None));
}

#[test]
fn test_password_validation_not_required() {
    let config = RemoteServerConfig {
        port: 47842,
        password: None,
        enabled: true,
    };

    assert!(config.validate_password(None));
}

#[test]
fn test_password_validation_not_required_but_provided() {
    let config = RemoteServerConfig {
        port: 47842,
        password: None,
        enabled: true,
    };

    assert!(config.validate_password(Some("anything")));
}

#[test]
fn test_server_status_idle() {
    let status = ServerStatus::Idle;
    assert!(!status.is_running());
}

#[test]
fn test_server_status_running() {
    let status = ServerStatus::Running {
        port: 47842,
        connections: 0,
    };
    assert!(status.is_running());
}

#[test]
fn test_server_status_with_connections() {
    let status = ServerStatus::Running {
        port: 47842,
        connections: 3,
    };

    if let ServerStatus::Running { connections, .. } = status {
        assert_eq!(connections, 3);
    } else {
        panic!("Expected Running status");
    }
}
