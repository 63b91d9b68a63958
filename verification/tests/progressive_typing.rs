use ears::desktop::TypingMode;
use ears::progressive_typing::{
    find_common_prefix, ProgressiveTypingConfig, ProgressiveTypingEngine, ProgressiveTypingError,
};

fn enabled(auto_correction: bool) -> ProgressiveTypingConfig {
    ProgressiveTypingConfig { enabled: true, auto_correction, typing_mode: TypingMode::Auto }
}

#[test]
fn test_find_common_prefix() {
    assert_eq!(find_common_prefix("hello", "hello"), "hello");
    assert_eq!(find_common_prefix("hello", "help"), "hel");
    assert_eq!(find_common_prefix("hello", "world"), "");
    assert_eq!(find_common_prefix("", "hello"), "");
    assert_eq!(find_common_prefix("hello", ""), "");
}

#[test]
fn test_progressive_typing_disabled() {
    let config = ProgressiveTypingConfig {
        enabled: false,
        auto_correction: true,
        typing_mode: TypingMode::Auto,
    };
    let engine = ProgressiveTypingEngine::new(config);
    assert_eq!(engine.typed_text(), "");
    assert!(engine.plan_update("anything").is_none());
}

#[test]
fn test_config_update() {
    let mut engine = ProgressiveTypingEngine::new(ProgressiveTypingConfig::default());
    assert!(!engine.config().enabled);
    assert!(!engine.config().auto_correction);
    engine.set_config(ProgressiveTypingConfig {
        enabled: true,
        auto_correction: true,
        typing_mode: TypingMode::Auto,
    });
    assert!(engine.config().enabled);
    assert!(engine.config().auto_correction);
}

#[test]
fn test_reset() {
    let mut engine = ProgressiveTypingEngine::new(enabled(false));
    assert_eq!(engine.update("test", Ok(())).unwrap(), 4);
    assert_eq!(engine.typed_text(), "test");
    engine.reset();
    assert_eq!(engine.typed_text(), "");
}

#[test]
fn test_find_common_prefix_multibyte() {
    assert_eq!(find_common_prefix("café", "cafétéria"), "café");
    assert_eq!(find_common_prefix("cafétéria", "café"), "café");
    assert_eq!(find_common_prefix("", "über"), "");
    assert_eq!(find_common_prefix("über", ""), "");
    assert_eq!(find_common_prefix("日本語", "日本人"), "日本");
}

#[test]
fn test_find_common_prefix_emoji() {
    assert_eq!(find_common_prefix("hello 👋 world", "hello 👋 earth"), "hello 👋 ");
    assert_eq!(find_common_prefix("👋🌍", "👋🌎"), "👋");
    assert_eq!(find_common_prefix("👋", "🌍"), "");
}

#[test]
fn extension_types_only_the_new_part() {
    let mut engine = ProgressiveTypingEngine::new(enabled(false));
    engine.update("Hello", Ok(())).unwrap();
    let plan = engine.plan_update("Hello world").unwrap();
    assert_eq!(plan.backspaces, 0);
    assert_eq!(plan.text, " world");
    assert_eq!(engine.update("Hello world", Ok(())).unwrap(), 6);
    assert_eq!(engine.typed_text(), "Hello world");
    assert!(engine.plan_update("Hello world").is_none());
}

#[test]
fn correction_erases_divergent_suffix() {
    let mut engine = ProgressiveTypingEngine::new(enabled(true));
    engine.update("Hello word", Ok(())).unwrap();
    let plan = engine.plan_update("Hello world").unwrap();
    assert_eq!(plan.backspaces, 1);
    assert_eq!(plan.text, "ld");
    assert_eq!(engine.update("Hello world", Ok(())).unwrap(), 3);
    assert_eq!(engine.typed_text(), "Hello world");
}

#[test]
fn divergence_without_correction_appends_beyond_typed() {
    let mut engine = ProgressiveTypingEngine::new(enabled(false));
    engine.update("abc", Ok(())).unwrap();
    let plan = engine.plan_update("abXde").unwrap();
    assert_eq!(plan.text, "de");
    assert_eq!(engine.update("abXde", Ok(())).unwrap(), 2);
    assert_eq!(engine.typed_text(), "abcde");
    assert!(engine.plan_update("ab").is_none());
}

#[test]
fn failed_typing_leaves_state_unchanged() {
    let mut engine = ProgressiveTypingEngine::new(enabled(true));
    let err = ProgressiveTypingError::TextInputError("wtype failed".to_string());
    assert_eq!(engine.update("abc", Err(err.clone())), Err(err));
    assert_eq!(engine.typed_text(), "");
}

#[test]
fn count_is_in_characters() {
    let mut engine = ProgressiveTypingEngine::new(enabled(false));
    assert_eq!(engine.update("日本", Ok(())).unwrap(), 2);
    let mut engine = ProgressiveTypingEngine::new(ProgressiveTypingConfig {
        enabled: true,
        auto_correction: false,
        typing_mode: TypingMode::Disabled,
    });
    assert_eq!(engine.update("café", Ok(())).unwrap(), 4);
    assert_eq!(engine.typed_text(), "café");
}

#[test]
fn none_mode_sends_no_key_events() {
    let mut engine = ProgressiveTypingEngine::new(ProgressiveTypingConfig {
        enabled: true,
        auto_correction: true,
        typing_mode: TypingMode::Disabled,
    });
    assert!(engine.plan_update("ab").is_none());
    assert_eq!(engine.update("ab", Ok(())).unwrap(), 2);
    assert!(engine.plan_update("ax").is_none());
    assert_eq!(engine.update("ax", Ok(())).unwrap(), 2);
    assert_eq!(engine.typed_text(), "ax");
}
