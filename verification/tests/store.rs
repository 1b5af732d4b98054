//! The model store: digests, paths, and the ensure/download cycle.

use whisp::model::WhisperModel;
use whisp::store::{
    compute_sha1, coreml_encoder_exists, coreml_encoder_path, digest_matches, hex_encode,
    model_exists, model_path, models_dir, models_dir_under, EnsureAction, ModelSlot, StoreError,
    verify_model,
};

#[test]
fn sha1_of_known_inputs() {
    assert_eq!(
        compute_sha1(&Vec::new()),
        "da39a3ee5e6b4b0d3255bfef95601890afd80709"
    );
    assert_eq!(
        compute_sha1(&b"hello world".to_vec()),
        "2aae6c35c94fcfb415dbe95f408b9ce91ee846ed"
    );
}

#[test]
fn hex_encoding_is_two_digits_per_byte() {
    assert_eq!(hex_encode(&vec![0x00, 0xff, 0x1a]), "00ff1a");
    assert_eq!(hex_encode(&Vec::new()), "");
}

#[test]
fn one_flipped_bit_fails_verification() {
    let mut data = b"a model artifact".to_vec();
    let digest = compute_sha1(&data);
    assert!(digest_matches(&digest, &data));
    data[0] ^= 0x01;
    assert!(!digest_matches(&digest, &data));
}

#[test]
fn verify_model_rejects_other_bytes() {
    assert!(!verify_model(WhisperModel::Tiny, &b"not the artifact".to_vec()));
}

#[test]
fn paths_join_canonically() {
    assert_eq!(models_dir_under("/data"), "/data/whisp/models");
    assert_eq!(
        model_path("/data/whisp/models", WhisperModel::Tiny),
        "/data/whisp/models/ggml-tiny.bin"
    );
    assert_eq!(
        coreml_encoder_path("/data/whisp/models", WhisperModel::BaseQ8_0),
        "/data/whisp/models/ggml-base-encoder.mlmodelc"
    );
    if let Ok(dir) = models_dir() {
        assert!(dir.ends_with("/whisp/models"));
    }
}

#[test]
fn existence_checks_read_the_listing() {
    let entries = vec!["ggml-tiny.bin".to_string(), "other.txt".to_string()];
    assert!(model_exists(&entries, WhisperModel::Tiny));
    assert!(!model_exists(&entries, WhisperModel::Base));
    assert!(!model_exists(&Vec::new(), WhisperModel::Tiny));

    assert!(coreml_encoder_exists(&Some(vec!["weights".to_string()])));
    assert!(!coreml_encoder_exists(&Some(Vec::new())));
    assert!(!coreml_encoder_exists(&None));
}

#[test]
fn download_then_ensure_uses_the_file_without_a_second_download() {
    let model = WhisperModel::Tiny;
    let mut slot = ModelSlot::open(model, None);
    assert!(!slot.is_present());
    assert_eq!(slot.ensure_action(), EnsureAction::Download);
    slot.downloaded(model.sha1().to_string());
    assert!(slot.finish_download().is_ok());
    assert!(slot.is_present());
    // a second ensure pass short-circuits: no further download
    assert_eq!(slot.ensure_action(), EnsureAction::UseExisting);
}

#[test]
fn corrupt_canonical_file_is_deleted_and_redownloaded() {
    let model = WhisperModel::Tiny;
    let mut slot = ModelSlot::open(model, Some("0000".to_string()));
    assert_eq!(slot.ensure_action(), EnsureAction::DeleteAndDownload);
    assert!(!slot.is_present());
}

#[test]
fn corrupt_download_is_discarded_not_promoted() {
    let model = WhisperModel::Tiny;
    let mut slot = ModelSlot::open(model, None);
    assert_eq!(slot.ensure_action(), EnsureAction::Download);
    slot.downloaded("1111111111111111111111111111111111111111".to_string());
    match slot.finish_download() {
        Err(StoreError::DigestMismatch { expected, actual }) => {
            assert_eq!(expected, model.sha1());
            assert_eq!(actual, "1111111111111111111111111111111111111111");
        },
        other => panic!("expected a digest mismatch, got {:?}", other),
    }
    assert!(!slot.is_present());
}
