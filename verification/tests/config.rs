//! Configuration defaults and the configuration file's location.

use whisp::config::{Config, ConfigManager, TranscriptionBackend, is_default_backend};

#[test]
fn test_default_config() {
    let config = Config::default();
    assert!(config.openai_key.is_none());
    assert!(config.auto_paste);
    assert!(!config.restore_clipboard);
    assert_eq!(config.retries, 5);
}

#[test]
fn config_test_default_config() {
    let config = Config::default();
    assert!(config.openai_key.is_none());
    assert!(config.auto_paste);
    assert!(!config.restore_clipboard);
    assert_eq!(config.retries, 5);
}

#[test]
fn test_set_and_get_open_ai_key() {
    let mut config = Config::default();
    assert!(config.key_openai().is_none());

    config.set_key_openai("my_api_key");
    assert_eq!(config.key_openai(), Some("my_api_key"));
}

#[test]
fn default_policy_values() {
    let config = Config::default();
    assert_eq!(config.discard_duration(), 500);
    assert_eq!(config.retries(), 5);
    assert!(config.language().is_none());
    assert!(config.model().is_none());
    assert_eq!(config.backend, TranscriptionBackend::OpenAI);
    assert!(config.coreml);
    assert!(config.local_model.is_none());
    assert!(config.hotkey.is_none());
}

#[test]
fn backend_default_detection() {
    assert_eq!(TranscriptionBackend::default(), TranscriptionBackend::OpenAI);
    assert!(is_default_backend(&TranscriptionBackend::OpenAI));
    assert!(!is_default_backend(&TranscriptionBackend::Local));
}

#[test]
fn config_path_under_directory() {
    let manager = ConfigManager::with_config_dir("/tmp/whisp-test");
    assert_eq!(manager.config_path(), "/tmp/whisp-test/whisp.toml");
}

#[test]
fn default_config_path_shape() {
    if let Ok(p) = ConfigManager::default_config_path() {
        assert!(p.ends_with("/whisp/whisp.toml"));
    }
    if let Ok(m) = ConfigManager::new() {
        assert!(m.config_path().ends_with("/whisp/whisp.toml"));
    }
}
