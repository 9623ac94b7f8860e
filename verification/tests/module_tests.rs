//! Tests for the neural-network modules.

use candle_core::DType;
use candle_core::Device;
use candle_core::Tensor;

use pocket_tts::modules::attention::KVCache;
use pocket_tts::modules::conv::CausalConv1d;
use pocket_tts::modules::conv::Conv1dLayer;
use pocket_tts::modules::conv::ConvTranspose1dLayer;
use pocket_tts::modules::conv::SEANetDecoderBlock;
use pocket_tts::modules::conv::SEANetEncoderBlock;
use pocket_tts::modules::embeddings::VoiceBank;
use pocket_tts::modules::embeddings::VoiceEmbedding;
use pocket_tts::modules::layer_norm::RMSNorm;
use pocket_tts::modules::mlp::MLPSampler;
use pocket_tts::modules::rotary::RotaryEmbedding;

#[test]
fn test_rms_norm_output_shape() {
    let device = Device::Cpu;
    let hidden_size = 64;
    let weight = Tensor::ones((hidden_size,), DType::F32, &device).unwrap();
    let norm = RMSNorm::load(hidden_size, 1_000_000, weight).unwrap();

    let input = Tensor::randn(0.0f32, 1.0, (2, 10, hidden_size), &device).unwrap();
    let output = norm.forward(&input).unwrap();

    assert_eq!(output.dims(), input.dims());
}

#[test]
fn test_rms_norm_preserves_dtype() {
    let device = Device::Cpu;
    let hidden_size = 32;
    let weight = Tensor::ones((hidden_size,), DType::F32, &device).unwrap();
    let norm = RMSNorm::load(hidden_size, 1_000_000, weight).unwrap();

    let input = Tensor::randn(0.0f32, 1.0, (1, 5, hidden_size), &device).unwrap();
    let output = norm.forward(&input).unwrap();

    assert_eq!(output.dtype(), input.dtype());
}

#[test]
fn test_rotary_embedding_creation() {
    let device = Device::Cpu;
    let rope = RotaryEmbedding::new(64, 2048, 10000, &device);
    assert!(rope.is_ok());
}

#[test]
fn test_rotary_embedding_forward() {
    let device = Device::Cpu;
    let dim = 64;
    let rope = RotaryEmbedding::new(dim, 2048, 10000, &device).unwrap();

    // Q and K tensors: [batch, seq, num_heads, head_dim]
    let q = Tensor::randn(0.0f32, 1.0, (1, 10, 4, dim), &device).unwrap();
    let k = Tensor::randn(0.0f32, 1.0, (1, 10, 4, dim), &device).unwrap();

    let (q_rot, k_rot) = rope.forward(&q, &k, 0).unwrap();

    assert_eq!(q_rot.dims(), q.dims());
    assert_eq!(k_rot.dims(), k.dims());
}

#[test]
fn test_rotary_embedding_with_offset() {
    let device = Device::Cpu;
    let dim = 64;
    let rope = RotaryEmbedding::new(dim, 2048, 10000, &device).unwrap();

    let q = Tensor::randn(0.0f32, 1.0, (1, 5, 4, dim), &device).unwrap();
    let k = Tensor::randn(0.0f32, 1.0, (1, 5, 4, dim), &device).unwrap();

    let result = rope.forward(&q, &k, 100);
    assert!(result.is_ok());
}

#[test]
fn test_rotary_embedding_exceeds_max_len() {
    let device = Device::Cpu;
    let dim = 64;
    let max_len = 100;
    let rope = RotaryEmbedding::new(dim, max_len, 10000, &device).unwrap();

    let q = Tensor::randn(0.0f32, 1.0, (1, 10, 4, dim), &device).unwrap();
    let k = Tensor::randn(0.0f32, 1.0, (1, 10, 4, dim), &device).unwrap();

    // Offset + seq_len > max_len should fail
    let result = rope.forward(&q, &k, 95);
    assert!(result.is_err());
}

#[test]
fn test_rotary_positions_matter() {
    // the same vectors rotated at different offsets must differ
    let device = Device::Cpu;
    let dim = 8;
    let rope = RotaryEmbedding::new(dim, 64, 10000, &device).unwrap();
    let q = Tensor::ones((1, 1, 1, dim), DType::F32, &device).unwrap();
    let k = Tensor::ones((1, 1, 1, dim), DType::F32, &device).unwrap();

    let (q0, _) = rope.forward(&q, &k, 0).unwrap();
    let (q5, _) = rope.forward(&q, &k, 5).unwrap();
    let a: Vec<f32> = q0.flatten_all().unwrap().to_vec1().unwrap();
    let b: Vec<f32> = q5.flatten_all().unwrap().to_vec1().unwrap();
    assert!(a.iter().zip(b.iter()).any(|(x, y)| (x - y).abs() > 1e-3));
}

#[test]
fn test_kv_cache_new() {
    let cache = KVCache::new();
    assert_eq!(cache.seq_len(), 0);
}

#[test]
fn test_kv_cache_default() {
    let cache = KVCache::default();
    assert_eq!(cache.seq_len(), 0);
}

#[test]
fn test_kv_cache_clear() {
    let mut cache = KVCache::new();
    cache.clear();
    assert_eq!(cache.seq_len(), 0);
}

#[test]
fn test_kv_cache_accumulates() {
    let device = Device::Cpu;
    let mut cache = KVCache::new();
    let k = Tensor::randn(0.0f32, 1.0, (1, 2, 3, 4), &device).unwrap();
    let v = Tensor::randn(0.0f32, 1.0, (1, 2, 3, 4), &device).unwrap();
    let (k_all, v_all) = cache.update(k, v).unwrap();
    assert_eq!(cache.seq_len(), 3);
    assert_eq!(k_all.dims(), &[1, 2, 3, 4]);
    assert_eq!(v_all.dims(), &[1, 2, 3, 4]);

    let k2 = Tensor::randn(0.0f32, 1.0, (1, 2, 5, 4), &device).unwrap();
    let v2 = Tensor::randn(0.0f32, 1.0, (1, 2, 5, 4), &device).unwrap();
    let (k_all, _) = cache.update(k2, v2).unwrap();
    assert_eq!(cache.seq_len(), 8);
    assert_eq!(k_all.dims(), &[1, 2, 8, 4]);

    cache.clear();
    assert_eq!(cache.seq_len(), 0);
}

#[test]
fn test_mlp_sampler_step_clamping() {
    let _sampler_type: fn() -> Option<MLPSampler> = || None;

    // consistency steps are clamped into one to four
    let device = Device::Cpu;
    let ws = pocket_tts::tensors::WeightStore::zeros(&device);
    let mut sampler = MLPSampler::new(8, 16, 8, 2, &ws).unwrap();
    sampler.set_num_steps(0);
    sampler.set_num_steps(99);
    sampler.set_num_steps(3);
    let x = Tensor::randn(0.0f32, 1.0, (1, 4, 8), &device).unwrap();
    let out = sampler.sample(&x, 700, 900, &device).unwrap();
    assert_eq!(out.dims(), &[1, 4, 8]);
}

#[test]
fn test_voice_embedding_from_tensor() {
    let device = Device::Cpu;
    let embedding = Tensor::randn(0.0f32, 1.0, (512,), &device).unwrap();
    let voice = VoiceEmbedding::from_tensor(embedding);
    assert!(voice.is_ok());
    assert_eq!(voice.unwrap().voice_dim(), 512);
}

#[test]
fn test_voice_embedding_expand() {
    let device = Device::Cpu;
    let embedding = Tensor::randn(0.0f32, 1.0, (256,), &device).unwrap();
    let voice = VoiceEmbedding::from_tensor(embedding).unwrap();

    let expanded = voice.expand_to_seq(2, 10);
    assert!(expanded.is_ok());

    let expanded = expanded.unwrap();
    assert_eq!(expanded.dims(), &[2, 1, 256]);
}

#[test]
fn test_voice_bank_new() {
    let bank = VoiceBank::new(512);
    assert_eq!(bank.len(), 0);
    assert!(bank.is_empty());
    assert_eq!(bank.voice_dim(), 512);
}

#[test]
fn test_voice_bank_get_empty() {
    let bank = VoiceBank::new(512);
    assert!(bank.get(0).is_none());
    assert!(bank.get(7).is_none());
}

#[test]
fn test_voice_bank_add_and_get() {
    let device = Device::Cpu;
    let embedding = Tensor::randn(0.0f32, 1.0, (3, 16), &device).unwrap();
    let voice = VoiceEmbedding::from_tensor(embedding).unwrap();
    let mut bank = VoiceBank::new(512);
    bank.add_voice(voice);
    assert_eq!(bank.len(), 1);
    assert_eq!(bank.voice_dim(), 16);
    assert!(bank.get(0).is_some());
    assert_eq!(bank.get(0).unwrap().prompt_seq_len().unwrap(), 3);
}

#[test]
fn test_conv_types_exist() {
    let _: fn() -> Option<Conv1dLayer> = || None;
    let _: fn() -> Option<CausalConv1d> = || None;
    let _: fn() -> Option<ConvTranspose1dLayer> = || None;
    let _: fn() -> Option<SEANetEncoderBlock> = || None;
    let _: fn() -> Option<SEANetDecoderBlock> = || None;
}

#[test]
fn test_causal_mask_rule() {
    // three queries against five keys (two cached): row i admits key j
    // exactly when j <= i + 2
    let bits = pocket_tts::modules::attention::causal_mask_bits(3, 5);
    let expected = vec![
        true, true, true, false, false, // i = 0
        true, true, true, true, false, // i = 1
        true, true, true, true, true, // i = 2
    ];
    assert_eq!(bits, expected);
}

#[test]
fn test_causal_conv_preserves_length() {
    let device = Device::Cpu;
    let ws = pocket_tts::tensors::WeightStore::zeros(&device);
    let conv = CausalConv1d::new(4, 6, 7, 1, 1, &ws).unwrap();
    let x = Tensor::randn(0.0f32, 1.0, (1, 4, 25), &device).unwrap();
    let y = conv.forward(&x).unwrap();
    assert_eq!(y.dims(), &[1, 6, 25]);
}
