//! The model catalog: name resolution, artifact locations, sizes.

use whisp::model::WhisperModel;

#[test]
fn test_model_from_name() {
    assert_eq!(
        WhisperModel::from_name("base-q8_0"),
        Some(WhisperModel::BaseQ8_0)
    );
    assert_eq!(WhisperModel::from_name("base"), Some(WhisperModel::Base));
    assert_eq!(
        WhisperModel::from_name("tiny.en"),
        Some(WhisperModel::TinyEn)
    );
    assert_eq!(
        WhisperModel::from_name("large-v3-turbo"),
        Some(WhisperModel::LargeV3Turbo)
    );
    assert_eq!(WhisperModel::from_name("invalid"), None);
}

#[test]
fn model_test_model_from_name() {
    assert_eq!(
        WhisperModel::from_name("base-q8_0"),
        Some(WhisperModel::BaseQ8_0)
    );
    assert_eq!(WhisperModel::from_name("base"), Some(WhisperModel::Base));
    assert_eq!(
        WhisperModel::from_name("tiny.en"),
        Some(WhisperModel::TinyEn)
    );
    assert_eq!(
        WhisperModel::from_name("large-v3-turbo"),
        Some(WhisperModel::LargeV3Turbo)
    );
    assert_eq!(WhisperModel::from_name("invalid"), None);
}

#[test]
fn test_model_urls() {
    let model = WhisperModel::BaseQ8_0;
    assert!(model.url().contains("ggml-base-q8_0.bin"));
    assert!(model.url().starts_with("https://"));
}

#[test]
fn model_test_model_urls() {
    let model = WhisperModel::BaseQ8_0;
    assert!(model.url().contains("ggml-base-q8_0.bin"));
    assert!(model.url().starts_with("https://"));
}

#[test]
fn test_all_names_parse() {
    for name in WhisperModel::all_names() {
        assert!(
            WhisperModel::from_name(name).is_some(),
            "Failed to parse model name: {}",
            name
        );
    }
}

#[test]
fn model_test_all_names_parse() {
    for name in WhisperModel::all_names() {
        assert!(
            WhisperModel::from_name(name).is_some(),
            "Failed to parse model name: {}",
            name
        );
    }
}

#[test]
fn test_default_model() {
    assert_eq!(WhisperModel::default(), WhisperModel::LargeV3TurboQ8_0);
}

#[test]
fn from_name_is_case_insensitive() {
    assert_eq!(
        WhisperModel::from_name("BASE-Q8_0"),
        Some(WhisperModel::BaseQ8_0)
    );
    assert_eq!(
        WhisperModel::from_name("Tiny.En"),
        Some(WhisperModel::TinyEn)
    );
    assert_eq!(WhisperModel::from_name(""), None);
    assert_eq!(WhisperModel::from_name("base "), None);
}

#[test]
fn all_names_resolve_to_their_own_variant() {
    for name in WhisperModel::all_names() {
        let m = WhisperModel::from_name(name).unwrap();
        assert_eq!(m.name(), name);
    }
}

#[test]
fn url_is_exact() {
    assert_eq!(
        WhisperModel::Tiny.url(),
        "https://huggingface.co/ggerganov/whisper.cpp/resolve/main/ggml-tiny.bin"
    );
}

#[test]
fn size_accessors() {
    assert_eq!(WhisperModel::Tiny.size_bytes(), 75 * 1024 * 1024);
    assert_eq!(WhisperModel::Tiny.size_human(), "75 MiB");
    assert_eq!(WhisperModel::Medium.size_human(), "1.5 GiB");
    assert_eq!(WhisperModel::LargeV1.size_human(), "2.9 GiB");
    assert_eq!(WhisperModel::LargeV2Q5_0.size_human(), "1.1 GiB");
}

#[test]
fn coreml_names_strip_quantization() {
    assert_eq!(WhisperModel::BaseQ8_0.coreml_base_name(), "base");
    assert_eq!(WhisperModel::TinyEnQ5_1.coreml_base_name(), "tiny.en");
    assert_eq!(
        WhisperModel::BaseQ8_0.coreml_encoder_dirname(),
        "ggml-base-encoder.mlmodelc"
    );
    assert_eq!(
        WhisperModel::BaseQ8_0.coreml_encoder_zip_filename(),
        "ggml-base-encoder.mlmodelc.zip"
    );
    assert_eq!(
        WhisperModel::BaseQ8_0.coreml_encoder_url(),
        "https://huggingface.co/ggerganov/whisper.cpp/resolve/main/ggml-base-encoder.mlmodelc.zip"
    );
    assert_eq!(WhisperModel::BaseQ8_0.coreml_encoder_size_mib(), 38);
    assert_eq!(WhisperModel::LargeV3TurboQ8_0.coreml_encoder_size_mib(), 1200);
}

#[test]
fn catalog_facts() {
    assert_eq!(WhisperModel::all_names().len(), 34);
    assert_eq!(
        WhisperModel::Tiny.sha1(),
        "bd577a113a864445d4c299885e0cb97d4ba92b5f"
    );
    assert_eq!(WhisperModel::Tiny.filename(), "ggml-tiny.bin");
}
