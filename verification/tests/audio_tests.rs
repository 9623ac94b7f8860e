//! Tests for audio utilities.

use candle_core::Device;
use candle_core::Tensor;

use pocket_tts::audio::normalize;
use pocket_tts::audio::BITS_PER_SAMPLE;
use pocket_tts::audio::CHANNELS;
use pocket_tts::audio::SAMPLE_RATE;

fn peak(samples: &[f32]) -> f32 {
    samples.iter().map(|s| s.abs()).fold(0.0f32, f32::max)
}

#[test]
fn test_sample_rate_constant() {
    assert_eq!(SAMPLE_RATE, 24000);
}

#[test]
fn test_channels_constant() {
    assert_eq!(CHANNELS, 1);
}

#[test]
fn test_bits_per_sample_constant() {
    assert_eq!(BITS_PER_SAMPLE, 32);
}

#[test]
fn test_normalize() {
    let device = Device::Cpu;
    let samples = Tensor::from_vec(vec![0.0f32, 0.25, -0.25, 0.5, -0.5], (5,), &device).unwrap();
    let normalized = normalize(&samples).unwrap();
    let out: Vec<f32> = normalized.to_vec1().unwrap();
    assert!((peak(&out) - 0.95).abs() < 0.01);
}

#[test]
fn test_normalize_already_normalized() {
    let device = Device::Cpu;
    let samples = Tensor::from_vec(vec![0.0f32, 0.5, -0.5, 0.95, -0.95], (5,), &device).unwrap();
    let normalized = normalize(&samples).unwrap();
    let out: Vec<f32> = normalized.to_vec1().unwrap();
    assert!((peak(&out) - 0.95).abs() < 0.01);
}

#[test]
fn test_normalize_single_sample() {
    let device = Device::Cpu;
    let samples = Tensor::from_vec(vec![0.5f32], (1,), &device).unwrap();
    let normalized = normalize(&samples).unwrap();
    let out: Vec<f32> = normalized.to_vec1().unwrap();
    assert!((peak(&out) - 0.95).abs() < 0.01);
}

#[test]
fn test_normalize_peak_at_one_is_scaled() {
    // spec: any non-silent input lands at the 0.95 target, a full-scale one
    // included
    let device = Device::Cpu;
    let samples = Tensor::from_vec(vec![1.0f32, -0.25], (2,), &device).unwrap();
    let normalized = normalize(&samples).unwrap();
    let out: Vec<f32> = normalized.to_vec1().unwrap();
    assert!((peak(&out) - 0.95).abs() < 0.01);
}

#[test]
fn test_normalize_loud_signal() {
    let device = Device::Cpu;
    let samples = Tensor::from_vec(vec![2.0f32, -4.0, 3.5], (3,), &device).unwrap();
    let normalized = normalize(&samples).unwrap();
    let out: Vec<f32> = normalized.to_vec1().unwrap();
    assert!((peak(&out) - 0.95).abs() < 0.01);
}

#[test]
fn test_normalize_quiet_signal() {
    let device = Device::Cpu;
    let samples = Tensor::from_vec(vec![0.001f32, -0.002, 0.0015], (3,), &device).unwrap();
    let normalized = normalize(&samples).unwrap();
    let out: Vec<f32> = normalized.to_vec1().unwrap();
    assert!((peak(&out) - 0.95).abs() < 0.01);
}

#[test]
fn test_normalize_silent() {
    let device = Device::Cpu;
    let samples = Tensor::from_vec(vec![0.0f32, 0.0, 0.0, 0.0], (4,), &device).unwrap();
    let normalized = normalize(&samples).unwrap();
    let out: Vec<f32> = normalized.to_vec1().unwrap();
    assert!(out.iter().all(|&s| s == 0.0));
}

#[test]
fn test_normalize_empty() {
    let device = Device::Cpu;
    let samples = Tensor::from_vec(Vec::<f32>::new(), (0,), &device).unwrap();
    let normalized = normalize(&samples).unwrap();
    let out: Vec<f32> = normalized.to_vec1().unwrap();
    assert!(out.is_empty());
}

#[test]
fn test_normalize_keeps_length() {
    let device = Device::Cpu;
    let samples = Tensor::from_vec(vec![0.1f32; 100], (100,), &device).unwrap();
    let normalized = normalize(&samples).unwrap();
    assert_eq!(normalized.dims(), &[100]);
}
