use herding_cats_rust::config_security::{generate_encryption_key, SecurityConfig};

#[test]
fn test_generate_encryption_key() {
    let key1 = generate_encryption_key();
    let key2 = generate_encryption_key();

    assert_eq!(key1.len(), 32);
    assert_eq!(key2.len(), 32);
    assert_ne!(key1, key2);
}

#[test]
fn test_security_config_creation() {
    let config = SecurityConfig::new();

    assert_eq!(config.encryption_key.len(), 32);
    assert!(config.enable_encryption);
    assert!(config.api_key.is_none());
}

#[test]
fn encryption_key_is_alphanumeric() {
    let key = generate_encryption_key();
    assert!(key.chars().all(|c| c.is_ascii_alphanumeric()));
}

#[test]
fn security_config_builders_set_their_fields() {
    let config = SecurityConfig::new().with_api_key("k".to_string()).with_encryption(false);
    assert_eq!(config.api_key, Some("k".to_string()));
    assert!(!config.enable_encryption);
}
