use flash_desktop::auth::{delete_token, get_token, is_authenticated, register_device, store_token};
use flash_desktop::config::Config;

fn sample() -> Config {
    Config {
        server_url: "https://useflash.com".to_string(),
        device_name: "laptop".to_string(),
        server_id: None,
        access_token: None,
    }
}

#[test]
fn stored_token_is_read_back() {
    let mut cfg = sample();
    assert!(!is_authenticated(&cfg));
    store_token(&mut cfg, "tok-123");
    assert_eq!(get_token(&cfg), Some("tok-123".to_string()));
    assert!(is_authenticated(&cfg));
    assert_eq!(cfg.device_name, "laptop");
    assert_eq!(cfg.server_url, "https://useflash.com");
}

#[test]
fn deleted_token_is_gone() {
    let mut cfg = sample();
    store_token(&mut cfg, "tok-123");
    delete_token(&mut cfg);
    assert_eq!(get_token(&cfg), None);
    assert!(!is_authenticated(&cfg));
    assert_eq!(cfg.device_name, "laptop");
}

#[test]
fn storing_twice_keeps_the_last_token() {
    let mut cfg = sample();
    store_token(&mut cfg, "first");
    store_token(&mut cfg, "second");
    assert_eq!(get_token(&cfg), Some("second".to_string()));
}

#[test]
fn register_device_records_everything() {
    let mut cfg = sample();
    register_device(&mut cfg, "tok", "srv-1".to_string(), "Desk".to_string());
    assert_eq!(cfg.access_token, Some("tok".to_string()));
    assert_eq!(cfg.server_id, Some("srv-1".to_string()));
    assert_eq!(cfg.device_name, "Desk");
    assert_eq!(cfg.server_url, "https://useflash.com");
}

#[test]
fn fresh_config_defaults() {
    let cfg = Config::fresh("box".to_string());
    assert_eq!(cfg.server_url, "https://useflash.com");
    assert_eq!(cfg.device_name, "box");
    assert_eq!(cfg.server_id, None);
    assert_eq!(cfg.access_token, None);
    let d = Config::default();
    assert_eq!(d.server_url, "https://useflash.com");
    assert!(!d.device_name.is_empty());
    assert_eq!(d.access_token, None);
}

#[test]
fn stored_config_wins_over_default() {
    let mut stored = sample();
    stored.server_url = "http://localhost:3000".to_string();
    let cfg = Config::from_stored(Some(stored));
    assert_eq!(cfg.server_url, "http://localhost:3000");
    let fallback = Config::from_stored(None);
    assert_eq!(fallback.server_url, "https://useflash.com");
    assert_eq!(fallback.server_id, None);
}

#[test]
fn fresh_settings_are_named_after_the_host() {
    let named = Config::fresh_for_host(Some("studio".to_string()));
    assert_eq!(named.device_name, "studio");
    assert_eq!(named.server_url, "https://useflash.com");
    assert_eq!(named.server_id, None);
    assert_eq!(named.access_token, None);
    let unnamed = Config::fresh_for_host(None);
    assert_eq!(unnamed.device_name, "Unknown");
    assert_eq!(unnamed.server_url, "https://useflash.com");
}

#[test]
fn default_device_name_matches_host_lookup() {
    let expected = flash_desktop::host::hostname_or("Unknown");
    assert_eq!(Config::default().device_name, expected);
}
