use ears::whisper::{grammar_reply_text, WhisperClient, WhisperError, 
    chat_completions_url, filter_silence_artifacts, is_chinese_artifact, looks_degenerate, retry_budget_ms,
    strip_asr_scaffold, transcription_url,
};

#[test]
fn test_filter_silence_artifacts() {
    let f = |t: &str| filter_silence_artifacts(None, t);
    assert_eq!(f("Thank you."), "");
    assert_eq!(f("Thank you"), "");
    assert_eq!(f("Thanks for watching."), "");

    assert_eq!(f("啊！"), "");
    assert_eq!(f("嗯。"), "");

    assert_eq!(f("啊!"), "");
    assert_eq!(f("嗯."), "");
    assert_eq!(f("嗯..."), "");
    assert_eq!(f("  啊 !  "), "");

    assert_eq!(f("Hello world"), "Hello world");
    assert_eq!(f("  Test message  "), "Test message");

    assert_eq!(f("你好世界"), "你好世界");
    assert_eq!(f("下车搵架。"), "下车搵架。");
    assert_eq!(f("这是一个测试"), "这是一个测试");

    assert_eq!(f("Thank you for your help"), "Thank you for your help");

    assert_eq!(f("Hello 你好"), "Hello 你好");
}

#[test]
fn test_filter_silence_artifacts_chinese_language() {
    let f = |t: &str| filter_silence_artifacts(Some("zh"), t);
    assert_eq!(f("你好世界"), "你好世界");
    assert_eq!(f("这是一个测试"), "这是一个测试");
    assert_eq!(f("Thank you."), "");
    assert_eq!(f("啊！"), "");
    assert_eq!(f("嗯。"), "");
}

#[test]
fn chinese_artifacts_depend_on_language() {
    assert!(is_chinese_artifact(None, "嗯..."));
    assert!(is_chinese_artifact(Some("en"), "啊"));
    assert!(!is_chinese_artifact(Some("ZH-tw"), "啊"));
    assert!(!is_chinese_artifact(Some("Chinese"), "啊"));
    assert!(!is_chinese_artifact(None, "..."));
    assert!(!is_chinese_artifact(None, ""));
}

#[test]
fn test_strip_asr_scaffold() {
    assert_eq!(strip_asr_scaffold("language English<asr_text>git status."), "git status");
    assert_eq!(strip_asr_scaffold("language Norwegian<asr_text>ls"), "ls");
    assert_eq!(strip_asr_scaffold("  pwd  "), "pwd");
    assert_eq!(strip_asr_scaffold("<asr_text>cargo build。"), "cargo build");
}

#[test]
fn test_looks_degenerate() {
    assert!(!looks_degenerate("ls -la"));
    assert!(!looks_degenerate("git commit -m fix"));
    assert!(!looks_degenerate(""));
    assert!(looks_degenerate(&"dir".repeat(30)));
    assert!(!looks_degenerate(&"a".repeat(40)));
    assert!(looks_degenerate(&"a".repeat(41)));
}

#[test]
fn endpoint_urls_drop_trailing_slashes() {
    assert_eq!(transcription_url("http://host:8178//"), "http://host:8178/v1/audio/transcriptions");
    assert_eq!(chat_completions_url("http://host"), "http://host/v1/chat/completions");
    assert_eq!(retry_budget_ms(50), 500);
    assert_eq!(retry_budget_ms(100), 30000);
}

#[test]
fn test_client_creation() {
    let client = WhisperClient::new("http://localhost:8178");
    assert_eq!(client.server_url, "http://localhost:8178");
    assert_eq!(client.max_retries, 3);
}

#[test]
fn test_client_with_custom_retry() {
    let client = WhisperClient::with_retry_config("http://localhost:8178", 5, 200, 10000);
    assert_eq!(client.max_retries, 5);
    assert_eq!(client.initial_backoff_ms, 200);
    assert_eq!(client.max_backoff_ms, 10000);
}

#[test]
fn client_builders_and_form() {
    let client = WhisperClient::new("http://h:1/")
        .with_language(Some("no".to_string()))
        .with_api_key(Some("k".to_string()))
        .with_model(None)
        .with_prompt(Some("PyTorch".to_string()));
    assert_eq!(client.api_key.as_deref(), Some("k"));
    let fields = client.form_fields();
    assert_eq!(
        fields,
        vec![
            ("response_format".to_string(), "json".to_string()),
            ("language".to_string(), "no".to_string()),
            ("prompt".to_string(), "PyTorch".to_string()),
        ]
    );
    assert_eq!(client.health_urls(), ("http://h:1/health".to_string(), "http://h:1/v1/models".to_string()));
    assert!(matches!(client.chat_model(), Err(WhisperError::TranscriptionError(_))));
    assert_eq!(client.clone().with_model(Some("m".to_string())).chat_model(), Ok("m".to_string()));
    assert_eq!(client.accept_transcript("  hello \n"), Ok("hello".to_string()));
    assert_eq!(client.accept_transcript("Thank you."), Err(WhisperError::EmptyTranscription));
    assert_eq!(grammar_reply_text("language English<asr_text>ls -la."), "ls -la");
    assert_eq!(grammar_reply_text(&format!("<asr_text>{}", "dir".repeat(20))), "");
}

#[test]
fn audio_is_base64_encoded_with_padding() {
    assert_eq!(ears::whisper::encode_base64(b"hello world~"), "aGVsbG8gd29ybGR+");
    assert_eq!(ears::whisper::encode_base64(b"ab"), "YWI=");
    assert_eq!(ears::whisper::encode_base64(b""), "");
}

#[test]
fn grammar_request_body_is_the_chat_completion_json() {
    let body = ears::whisper::chat_request_body("qwen", b"ab", "root ::= \"ls\"\n\\\u{1}");
    assert_eq!(
        body,
        "{\"max_tokens\":64,\"messages\":[{\"content\":[{\"input_audio\":{\"data\":\"YWI=\",\"format\":\"wav\"},\"type\":\"input_audio\"},{\"text\":\"Transcribe the audio.\",\"type\":\"text\"}],\"role\":\"user\"}],\"model\":\"qwen\",\"structured_outputs\":{\"grammar\":\"root ::= \\\"ls\\\"\\n\\\\\\u0001\"},\"temperature\":0.0}"
    );
    let v: serde_json::Value = serde_json::from_str(&body).unwrap();
    assert_eq!(v["model"], "qwen");
    assert_eq!(v["max_tokens"], 64);
    assert_eq!(v["temperature"], 0.0);
    assert_eq!(v["structured_outputs"]["grammar"], "root ::= \"ls\"\n\\\u{1}");
    assert_eq!(v["messages"][0]["role"], "user");
    assert_eq!(v["messages"][0]["content"][0]["input_audio"]["data"], "YWI=");
    assert_eq!(v["messages"][0]["content"][0]["input_audio"]["format"], "wav");
    assert_eq!(v["messages"][0]["content"][1]["text"], "Transcribe the audio.");
}
