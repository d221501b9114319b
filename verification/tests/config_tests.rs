use whisp_rs::config::{
    api_key_field, api_key_table, config_dir_name, config_file_name, config_file_path, default_channels, default_key, default_language, default_model,
    default_modifiers, default_sample_rate, Config,
};

#[test]
fn defaults() {
    assert_eq!(default_modifiers(), vec!["ctrl".to_string()]);
    assert_eq!(default_key(), "space");
    assert_eq!(default_model(), "nova-2-general");
    assert_eq!(default_language(), "en");
    assert_eq!(default_sample_rate(), 16000);
    assert_eq!(default_channels(), 1);
}

#[test]
fn default_config() {
    let c = Config::default();
    assert_eq!(c.hotkey.modifiers, vec!["ctrl".to_string()]);
    assert_eq!(c.hotkey.key, "space");
    assert_eq!(c.stt.api_key, None);
    assert_eq!(c.stt.model, "nova-2-general");
    assert_eq!(c.stt.language, "en");
    assert_eq!(c.audio.sample_rate, 16000);
    assert_eq!(c.audio.channels, 1);
}

#[test]
fn env_api_key_takes_precedence() {
    let mut c = Config::default();
    c.stt.api_key = Some("from-file".to_string());
    c.apply_env_api_key(Some("from-env".to_string()));
    assert_eq!(c.stt.api_key.as_deref(), Some("from-env"));
    assert_eq!(c.stt.model, "nova-2-general");
}

#[test]
fn no_env_api_key_keeps_file_key() {
    let mut c = Config::default();
    c.stt.api_key = Some("from-file".to_string());
    c.apply_env_api_key(None);
    assert_eq!(c.stt.api_key.as_deref(), Some("from-file"));
    let mut d = Config::default();
    d.apply_env_api_key(None);
    assert_eq!(d.stt.api_key, None);
}

#[test]
fn config_path_under_config_dir() {
    assert_eq!(
        config_file_path(Some("/home/me/.config".to_string())),
        "/home/me/.config/whisp-rs/config.toml"
    );
    assert_eq!(
        config_file_path(Some("/home/me/.config/".to_string())),
        "/home/me/.config/whisp-rs/config.toml"
    );
}

#[test]
fn config_path_fallback() {
    assert_eq!(config_file_path(None), "~/.config/whisp-rs/config.toml");
}

#[test]
fn config_path_matches_pathbuf_join() {
    for dir in ["/etc/xdg", "/tmp/", "relative/dir", ""] {
        let expected = std::path::PathBuf::from(dir).join("whisp-rs").join("config.toml");
        assert_eq!(config_file_path(Some(dir.to_string())), expected.to_str().unwrap());
    }
}

#[test]
fn config_names() {
    assert_eq!(config_dir_name(), "whisp-rs");
    assert_eq!(config_file_name(), "config.toml");
}

#[test]
fn api_key_location() {
    assert_eq!(api_key_table(), "stt");
    assert_eq!(api_key_field(), "api_key");
}
