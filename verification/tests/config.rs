use ears::config::{
    active_grammar, check_server_url, config_file_name, effective_auto_correction, env_setting,
    server_has_redundant_v1, mask_secret, profile_choice, resolve_server, validate_config, ConfigError,
    LanguageServer,
};

#[test]
fn test_mask_secret() {
    let masked = mask_secret("gsk_abcdefghijklmnopqrstuvwxyz0123");
    assert_eq!(masked, "set (gsk_…123)");
    assert!(!masked.contains("abcdef"));

    assert_eq!(mask_secret("short"), "set (hidden)");
    assert_eq!(mask_secret("12345678"), "set (hidden)");
}

#[test]
fn test_server_has_redundant_v1() {
    let path = |u: &str| url::Url::parse(u).unwrap().path().to_string();
    assert!(server_has_redundant_v1(&path("https://api.groq.com/openai/v1")));
    assert!(server_has_redundant_v1(&path("https://api.groq.com/openai/v1/")));
    assert!(!server_has_redundant_v1(&path("https://api.groq.com/openai")));
    assert!(!server_has_redundant_v1(&path("http://127.0.0.1:8178")));
}

#[test]
fn test_resolve_server_with_language_match() {
    let servers = vec![(
        "no".to_string(),
        LanguageServer {
            server: "http://192.168.8.170:30190/".to_string(),
            model: Some("nb-asr-model".to_string()),
        },
    )];
    let (server, model) = resolve_server(Some("no"), &servers, "http://localhost:8178/", None);
    assert_eq!(server, "http://192.168.8.170:30190/");
    assert_eq!(model, Some("nb-asr-model".to_string()));
}

#[test]
fn test_resolve_server_fallback() {
    let servers: Vec<(String, LanguageServer)> = vec![];
    let (server, model) = resolve_server(Some("de"), &servers, "http://localhost:8178/", None);
    assert_eq!(server, "http://localhost:8178/");
    assert_eq!(model, None);
    let (server, model) = resolve_server(None, &servers, "http://localhost:8178/", Some("m"));
    assert_eq!(server, "http://localhost:8178/");
    assert_eq!(model, Some("m".to_string()));
}

#[test]
fn test_resolve_server_inherits_default_model() {
    let servers = vec![(
        "no".to_string(),
        LanguageServer { server: "http://localhost:9999/".to_string(), model: None },
    )];
    let (_server, model) = resolve_server(Some("no"), &servers, "http://localhost:8178/", Some("default-model"));
    assert_eq!(model, Some("default-model".to_string()));
}

#[test]
fn test_effective_auto_correction() {
    assert!(!effective_auto_correction(None, false));
    assert!(effective_auto_correction(None, true));
    assert!(effective_auto_correction(Some(true), false));
    assert!(!effective_auto_correction(Some(false), true));
}

#[test]
fn test_active_grammar_gated_on_bash_mode() {
    assert_eq!(active_grammar(false, Some("g"), "builtin"), None);
    assert_eq!(active_grammar(true, None, "builtin"), Some("builtin".to_string()));
    assert_eq!(active_grammar(true, Some("g"), "builtin"), Some("g".to_string()));
}

#[test]
fn test_config_file_path_with_profile() {
    assert_eq!(config_file_name(Some("work")), "config.work.toml");
}

#[test]
fn test_config_file_path_default() {
    assert_eq!(config_file_name(None), "config.toml");
}

#[test]
fn test_validate_invalid_scheme() {
    assert_eq!(validate_config("ftp", true, "default"), Err(ConfigError::InvalidScheme("ftp".to_string())));
}

#[test]
fn test_validate_empty_device() {
    assert_eq!(validate_config("http", true, ""), Err(ConfigError::EmptyDevice));
    assert_eq!(validate_config("https", false, "mic"), Err(ConfigError::MissingHost));
    assert_eq!(validate_config("https", true, "mic"), Ok(()));
}

#[test]
fn test_set_server_validation() {
    assert!(check_server_url("http://localhost:8178").is_ok());
    assert!(check_server_url("https://example.com/v1").is_ok());
}

#[test]
fn test_invalid_url() {
    assert_eq!(check_server_url("not a url"), Err(ConfigError::InvalidUrl("not a url".to_string())));
}

#[test]
fn test_invalid_scheme() {
    assert_eq!(check_server_url("ftp://localhost:8080"), Err(ConfigError::InvalidScheme("ftp".to_string())));
}

#[test]
fn environment_settings_are_trimmed() {
    assert_eq!(env_setting("  en "), Some("en".to_string()));
    assert_eq!(env_setting("   "), None);
    assert_eq!(profile_choice("default"), None);
    assert_eq!(profile_choice(""), None);
    assert_eq!(profile_choice("work"), Some("work".to_string()));
}
