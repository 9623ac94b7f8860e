//! Tests for error types.

use pocket_tts::error::PocketTTSError;

#[test]
fn test_model_not_loaded_error() {
    let error = PocketTTSError::ModelNotLoaded;
    assert_eq!(error.message(), "Model not loaded");
}

#[test]
fn test_model_load_failed_error() {
    let error = PocketTTSError::ModelLoadFailed("file not found".to_string());
    assert!(error.message().contains("Failed to load model"));
    assert!(error.message().contains("file not found"));
}

#[test]
fn test_tokenization_failed_error() {
    let error = PocketTTSError::TokenizationFailed("invalid token".to_string());
    assert!(error.message().contains("Tokenization failed"));
    assert!(error.message().contains("invalid token"));
}

#[test]
fn test_inference_failed_error() {
    let error = PocketTTSError::InferenceFailed("out of memory".to_string());
    assert!(error.message().contains("Inference failed"));
    assert!(error.message().contains("out of memory"));
}

#[test]
fn test_invalid_voice_error() {
    let error = PocketTTSError::InvalidVoice(99);
    assert!(error.message().contains("Invalid voice index"));
    assert!(error.message().contains("99"));
}

#[test]
fn test_invalid_config_error() {
    let error = PocketTTSError::InvalidConfig("temperature out of range".to_string());
    assert!(error.message().contains("Invalid configuration"));
    assert!(error.message().contains("temperature out of range"));
}

#[test]
fn test_audio_encoding_failed_error() {
    let error = PocketTTSError::AudioEncodingFailed("WAV write failed".to_string());
    assert!(error.message().contains("Audio encoding failed"));
    assert!(error.message().contains("WAV write failed"));
}

#[test]
fn test_io_error() {
    let error = PocketTTSError::IoError("permission denied".to_string());
    assert!(error.message().contains("IO error"));
    assert!(error.message().contains("permission denied"));
}

#[test]
fn test_error_debug_format() {
    let error = PocketTTSError::InvalidVoice(5);
    let debug_str = format!("{:?}", error);
    assert!(debug_str.contains("InvalidVoice"));
    assert!(debug_str.contains("5"));
}

#[test]
fn test_error_display_format() {
    let error = PocketTTSError::ModelNotLoaded;
    let display_str = error.message();
    assert_eq!(display_str, "Model not loaded");
}

#[test]
fn test_decimal_rendering() {
    assert_eq!(pocket_tts::error::u32_to_decimal(0), "0");
    assert_eq!(pocket_tts::error::u32_to_decimal(7), "7");
    assert_eq!(pocket_tts::error::u32_to_decimal(42), "42");
    assert_eq!(pocket_tts::error::u32_to_decimal(4294967295), "4294967295");
}
