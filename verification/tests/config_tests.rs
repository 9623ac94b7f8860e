//! Tests for configuration types.

use pocket_tts::config::ModelManifest;
use pocket_tts::config::TTSConfig;
use pocket_tts::config::VoiceInfo;

#[test]
fn test_default_config() {
    let config = TTSConfig::default();
    assert_eq!(config.voice_index, 0);
    assert_eq!(config.temperature_milli, 700);
    assert_eq!(config.top_p_milli, 900);
    assert_eq!(config.speed_milli, 1000);
    assert_eq!(config.consistency_steps, 2);
    assert!(!config.use_fixed_seed);
    assert_eq!(config.seed, 42);
}

#[test]
fn test_low_latency_config() {
    let config = TTSConfig::low_latency();
    assert_eq!(config.consistency_steps, 1);
}

#[test]
fn test_high_quality_config() {
    let config = TTSConfig::high_quality();
    assert_eq!(config.consistency_steps, 4);
    assert_eq!(config.temperature_milli, 500);
}

#[test]
fn test_config_validation_valid() {
    let config = TTSConfig::default();
    assert!(config.validate().is_ok());
}

#[test]
fn test_config_validation_invalid_voice() {
    let config = TTSConfig {
        voice_index: 8, // Invalid: must be 0-7
        ..TTSConfig::default()
    };
    assert!(config.validate().is_err());
    assert!(config.validate().unwrap_err().contains("Voice index"));
}

#[test]
fn test_config_validation_invalid_temperature_high() {
    let config = TTSConfig {
        temperature_milli: 1500, // Invalid: must be 0-1000 thousandths
        ..TTSConfig::default()
    };
    assert!(config.validate().is_err());
    assert!(config.validate().unwrap_err().contains("Temperature"));
}

#[test]
fn test_config_validation_invalid_top_p_high() {
    let config = TTSConfig {
        top_p_milli: 1500, // Invalid: must be 100-1000 thousandths
        ..TTSConfig::default()
    };
    assert!(config.validate().is_err());
    assert!(config.validate().unwrap_err().contains("Top-P"));
}

#[test]
fn test_config_validation_invalid_top_p_low() {
    let config = TTSConfig {
        top_p_milli: 50, // Invalid: must be 100-1000 thousandths
        ..TTSConfig::default()
    };
    assert!(config.validate().is_err());
}

#[test]
fn test_config_validation_invalid_speed_high() {
    let config = TTSConfig {
        speed_milli: 3000, // Invalid: must be 500-2000 thousandths
        ..TTSConfig::default()
    };
    assert!(config.validate().is_err());
    assert!(config.validate().unwrap_err().contains("Speed"));
}

#[test]
fn test_config_validation_invalid_speed_low() {
    let config = TTSConfig {
        speed_milli: 300, // Invalid: must be 500-2000 thousandths
        ..TTSConfig::default()
    };
    assert!(config.validate().is_err());
}

#[test]
fn test_config_validation_invalid_consistency_steps_high() {
    let config = TTSConfig {
        consistency_steps: 5, // Invalid: must be 1-4
        ..TTSConfig::default()
    };
    assert!(config.validate().is_err());
    assert!(config.validate().unwrap_err().contains("Consistency"));
}

#[test]
fn test_config_validation_invalid_consistency_steps_zero() {
    let config = TTSConfig {
        consistency_steps: 0, // Invalid: must be 1-4
        ..TTSConfig::default()
    };
    assert!(config.validate().is_err());
}

#[test]
fn test_config_boundary_values() {
    // Minimum valid values
    let min_config = TTSConfig {
        voice_index: 0,
        temperature_milli: 0,
        top_p_milli: 100,
        speed_milli: 500,
        consistency_steps: 1,
        use_fixed_seed: false,
        seed: 0,
    };
    assert!(min_config.validate().is_ok());

    // Maximum valid values
    let max_config = TTSConfig {
        voice_index: 7,
        temperature_milli: 1000,
        top_p_milli: 1000,
        speed_milli: 2000,
        consistency_steps: 4,
        use_fixed_seed: true,
        seed: u32::MAX,
    };
    assert!(max_config.validate().is_ok());
}

#[test]
fn test_voice_info_creation() {
    let voice = VoiceInfo {
        index: 0,
        name: "Alba".to_string(),
        gender: "female".to_string(),
        description: "Clear, neutral female voice".to_string(),
    };
    assert_eq!(voice.index, 0);
    assert_eq!(voice.name, "Alba");
    assert_eq!(voice.gender, "female");
}

#[test]
fn test_model_manifest_default() {
    let manifest = ModelManifest::default();
    assert_eq!(manifest.version, "1.0.2");
    assert_eq!(manifest.model_id, "kyutai/pocket-tts");
    assert_eq!(manifest.license, "CC-BY-4.0");
    assert_eq!(manifest.parameters, 117_856_642);
    assert_eq!(manifest.sample_rate, 24000);
    assert_eq!(manifest.frame_rate_milli, 12500);
    assert_eq!(manifest.hidden_size, 1024);
    assert_eq!(manifest.num_layers, 6);
    assert_eq!(manifest.num_heads, 16);
    assert_eq!(manifest.vocab_size, 32000);
}
