//! Tests of the saved-connection registry and its active selection.

use voicetypr::remote::settings::RemoteSettings;
use voicetypr::remote::settings::generate_id;

#[test]
fn test_generate_unique_ids() {
    let id1 = generate_id();
    let id2 = generate_id();
    assert_ne!(id1, id2);
}

#[test]
fn test_remote_settings_default() {
    let settings = RemoteSettings::default();

    assert!(!settings.server_config.enabled);
    assert_eq!(settings.server_config.port, 47842);
    assert!(settings.server_config.password.is_none());
    assert!(settings.saved_connections.is_empty());
    assert!(settings.active_connection_id.is_none());
}

#[test]
fn test_add_connection() {
    let mut settings = RemoteSettings::default();

    let saved = settings.add_connection("192.168.1.100".to_string(), 47842, None, None);

    assert_eq!(settings.saved_connections.len(), 1);
    assert!(settings.get_connection(&saved.id).is_some());

    let retrieved = settings.get_connection(&saved.id).unwrap();
    assert_eq!(retrieved.host, "192.168.1.100");
    assert_eq!(retrieved.port, 47842);
}

#[test]
fn test_add_connection_with_name() {
    let mut settings = RemoteSettings::default();

    let saved = settings.add_connection(
        "192.168.1.100".to_string(),
        47842,
        None,
        Some("Living Room Desktop".to_string()),
    );

    assert_eq!(saved.name, Some("Living Room Desktop".to_string()));
    assert_eq!(saved.display_name(), "Living Room Desktop");
}

#[test]
fn test_remove_connection() {
    let mut settings = RemoteSettings::default();

    let saved = settings.add_connection("192.168.1.100".to_string(), 47842, None, None);

    assert_eq!(settings.saved_connections.len(), 1);

    let result = settings.remove_connection(&saved.id);
    assert!(result.is_ok());
    assert!(settings.saved_connections.is_empty());
}

#[test]
fn test_remove_nonexistent_connection() {
    let mut settings = RemoteSettings::default();

    let result = settings.remove_connection("nonexistent-id");
    assert!(result.is_err());
}

#[test]
fn test_remove_active_connection_clears_active() {
    let mut settings = RemoteSettings::default();

    let saved = settings.add_connection("192.168.1.100".to_string(), 47842, None, None);

    settings.set_active_connection(Some(saved.id.clone())).unwrap();
    assert_eq!(settings.active_connection_id, Some(saved.id.clone()));

    settings.remove_connection(&saved.id).unwrap();
    assert!(settings.active_connection_id.is_none());
}

#[test]
fn test_set_active_connection() {
    let mut settings = RemoteSettings::default();

    let saved1 = settings.add_connection("192.168.1.100".to_string(), 47842, None, None);
    let saved2 = settings.add_connection("192.168.1.101".to_string(), 47842, None, None);

    settings.set_active_connection(Some(saved1.id.clone())).unwrap();
    assert_eq!(settings.active_connection_id, Some(saved1.id.clone()));

    settings.set_active_connection(Some(saved2.id.clone())).unwrap();
    assert_eq!(settings.active_connection_id, Some(saved2.id));

    settings.set_active_connection(None).unwrap();
    assert!(settings.active_connection_id.is_none());
}

#[test]
fn test_get_active_connection() {
    let mut settings = RemoteSettings::default();

    assert!(settings.get_active_connection().is_none());

    let saved = settings.add_connection("192.168.1.100".to_string(), 47842, None, None);

    settings.set_active_connection(Some(saved.id.clone())).unwrap();

    let active = settings.get_active_connection();
    assert!(active.is_some());
    assert_eq!(active.unwrap().host, "192.168.1.100");
}

#[test]
fn test_saved_connection_has_timestamp() {
    let mut settings = RemoteSettings::default();

    let saved = settings.add_connection("192.168.1.100".to_string(), 47842, None, None);

    assert!(saved.created_at > 0);
}

#[test]
fn test_list_connections() {
    let mut settings = RemoteSettings::default();

    settings.add_connection("192.168.1.100".to_string(), 47842, None, Some("A".to_string()));
    settings.add_connection("192.168.1.101".to_string(), 47842, None, Some("B".to_string()));
    settings.add_connection("192.168.1.102".to_string(), 47842, None, Some("C".to_string()));

    let all = settings.list_connections();
    assert_eq!(all.len(), 3);
}

#[test]
fn test_connection_ids_are_unique() {
    let mut settings = RemoteSettings::default();

    let saved1 = settings.add_connection("192.168.1.100".to_string(), 47842, None, None);
    let saved2 = settings.add_connection("192.168.1.100".to_string(), 47842, None, None);

    assert_ne!(saved1.id, saved2.id);
}

#[test]
fn test_saved_connection_display_name() {
    let mut settings = RemoteSettings::default();

    let saved1 = settings.add_connection(
        "192.168.1.100".to_string(),
        47842,
        None,
        Some("My Desktop".to_string()),
    );
    assert_eq!(saved1.display_name(), "My Desktop");

    let saved2 = settings.add_connection("192.168.1.101".to_string(), 8080, None, None);
    assert_eq!(saved2.display_name(), "192.168.1.101:8080");
}

#[test]
fn test_set_active_connection_validates() {
    let mut settings = RemoteSettings::default();

    let result = settings.set_active_connection(Some("nonexistent".to_string()));
    assert!(result.is_err());

    let result = settings.set_active_connection(None);
    assert!(result.is_ok());
}
