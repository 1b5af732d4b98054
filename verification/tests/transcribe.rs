//! The backends' decision logic: requests, responses, segments, and the
//! local lazy load.

use whisp::model::WhisperModel;
use whisp::transcribe::{
    build_request_parts, context_action, interpret_response, join_segments, trim, ContextAction,
    FormPart, LocalWhisperConfig, OpenAIConfig, TranscribeError, WhisperResponse,
};

#[test]
fn response_envelope_carries_text() {
    let response = WhisperResponse { text: "hi".to_string(), headers: None };
    assert_eq!(response.text, "hi");
    assert!(response.headers.is_none());
}

#[test]
fn test_config_default() {
    let config = LocalWhisperConfig::default();
    assert_eq!(config.model, WhisperModel::LargeV3TurboQ8_0);
    assert!(config.model_path.is_none());
}

#[test]
fn local_config_builders() {
    let config = LocalWhisperConfig::new(WhisperModel::Base)
        .with_model_path("/tmp/ggml-base.bin".to_string());
    assert_eq!(config.model, WhisperModel::Base);
    assert_eq!(config.model_path.as_deref(), Some("/tmp/ggml-base.bin"));
}

#[test]
fn openai_config_model_defaulting() {
    let config = OpenAIConfig::new("sk-test".to_string());
    assert_eq!(config.model(), "gpt-4o-mini-transcribe");
    let config = config.with_model("whisper-1".to_string());
    assert_eq!(config.model(), "whisper-1");
    assert_eq!(config.api_key, "sk-test");
}

#[test]
fn request_parts_without_language() {
    let parts = build_request_parts(vec![1, 2, 3], "whisper-1", None);
    assert_eq!(parts.len(), 2);
    match &parts[0] {
        FormPart::Bytes { name, filename, mime, data } => {
            assert_eq!(name, "file");
            assert_eq!(filename, "recording.wav");
            assert_eq!(mime, "audio/wav");
            assert_eq!(data, &vec![1, 2, 3]);
        },
        other => panic!("expected the file part, got {:?}", other),
    }
    match &parts[1] {
        FormPart::Text { name, value } => {
            assert_eq!(name, "model");
            assert_eq!(value, "whisper-1");
        },
        other => panic!("expected the model part, got {:?}", other),
    }
}

#[test]
fn request_parts_with_language() {
    let parts = build_request_parts(Vec::new(), "whisper-1", Some("en"));
    assert_eq!(parts.len(), 3);
    match &parts[2] {
        FormPart::Text { name, value } => {
            assert_eq!(name, "language");
            assert_eq!(value, "en");
        },
        other => panic!("expected the language part, got {:?}", other),
    }
}

#[test]
fn success_response_yields_the_text() {
    assert_eq!(
        interpret_response(200, "{\"text\":\"hello there\"}"),
        Ok("hello there".to_string())
    );
}

#[test]
fn non_success_status_is_an_api_error() {
    assert_eq!(
        interpret_response(404, "nope"),
        Err(TranscribeError::ApiError("API returned 404: nope".to_string()))
    );
    assert!(matches!(
        interpret_response(500, "{\"text\":\"x\"}"),
        Err(TranscribeError::ApiError(_))
    ));
}

#[test]
fn unreadable_success_body_is_a_failure() {
    assert!(matches!(
        interpret_response(200, "not json"),
        Err(TranscribeError::TranscriptionFailed(_))
    ));
    assert!(matches!(
        interpret_response(200, "{\"other\":1}"),
        Err(TranscribeError::TranscriptionFailed(_))
    ));
}

#[test]
fn trim_strips_both_ends() {
    assert_eq!(trim("  a b \n"), "a b");
    assert_eq!(trim(""), "");
    assert_eq!(trim("\t\r\n "), "");
    assert_eq!(trim("no-ws"), "no-ws");
}

#[test]
fn segments_concatenate_then_trim() {
    let segments = vec![" Hello".to_string(), " world".to_string(), " ".to_string()];
    assert_eq!(join_segments(&segments), "Hello world");
    assert_eq!(join_segments(&Vec::new()), "");
}

#[test]
fn lazy_load_decision() {
    let config = LocalWhisperConfig::new(WhisperModel::Tiny);
    assert_eq!(
        context_action(true, &config, "/m"),
        ContextAction::AlreadyLoaded
    );
    assert_eq!(
        context_action(false, &config, "/m"),
        ContextAction::LoadFrom("/m/ggml-tiny.bin".to_string())
    );
    let config = config.with_model_path("/elsewhere.bin".to_string());
    assert_eq!(
        context_action(false, &config, "/m"),
        ContextAction::LoadFrom("/elsewhere.bin".to_string())
    );
}
