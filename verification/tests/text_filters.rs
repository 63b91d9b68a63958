use ears::text_filters::TextFilters;

#[test]
fn test_no_filters() {
    let filters = TextFilters::new();
    assert_eq!(filters.apply("Hello, World!", None), "Hello, World!");
}

#[test]
fn test_lowercase() {
    let filters = TextFilters { lowercase: true, ..Default::default() };
    assert_eq!(filters.apply("Hello, World!", None), "hello, world!");
}

#[test]
fn test_remove_punctuation() {
    let filters = TextFilters { remove_punctuation: true, ..Default::default() };
    assert_eq!(filters.apply("Hello, World!", None), "Hello World");
}

#[test]
fn test_both_filters() {
    let filters = TextFilters { lowercase: true, remove_punctuation: true, ..Default::default() };
    assert_eq!(filters.apply("Hello, World!", None), "hello world");
}

#[test]
fn test_command_line_use_case() {
    let filters = TextFilters { lowercase: true, remove_punctuation: true, ..Default::default() };
    assert_eq!(
        filters.apply("Git commit -m \"Update readme.\"", None),
        "git commit m update readme"
    );
}

#[test]
fn test_any_enabled() {
    let filters = TextFilters::new();
    assert!(filters.any_enabled());
    let mut filters = TextFilters { strict_alphabet: false, ..Default::default() };
    assert!(!filters.any_enabled());
    filters.lowercase = true;
    assert!(filters.any_enabled());
    let filters2 = TextFilters { remove_punctuation: true, ..Default::default() };
    assert!(filters2.any_enabled());
}

#[test]
fn strict_alphabet_drops_foreign_script() {
    let filters = TextFilters::new();
    assert_eq!(filters.apply("你好世界", Some("en")), "");
    assert_eq!(filters.apply("你好世界", Some("zh")), "你好世界");
    assert_eq!(filters.apply("Hello 你", None), "Hello 你");
    assert_eq!(filters.apply("   ", None), "   ");
}

#[test]
fn strict_alphabet_language_is_case_insensitive() {
    let filters = TextFilters::new();
    assert_eq!(filters.apply("Привет", Some("English")), "");
}
