//! End-to-end tests of the synthesis pipeline, running the real numeric
//! backend over an all-zero weight store.

use candle_core::Device;
use candle_core::Tensor;

use pocket_tts::models::flowlm::FlowLM;
use pocket_tts::models::flowlm::FlowLMConfig;
use pocket_tts::models::mimi::MimiConfig;
use pocket_tts::models::mimi::MimiDecoder;
use pocket_tts::models::pocket_tts::PocketTTSModel;
use pocket_tts::models::seanet::SEANetConfig;
use pocket_tts::models::seanet::SEANetDecoder;
use pocket_tts::modules::embeddings::VoiceBank;
use pocket_tts::tensors::WeightStore;
use pocket_tts::tokenizer::PocketTokenizer;

fn small_flowlm_config() -> FlowLMConfig {
    FlowLMConfig {
        vocab_size: 128,
        hidden_size: 32,
        intermediate_size: 64,
        num_layers: 2,
        num_heads: 4,
        max_seq_len: 256,
        rope_base: 10000,
        rms_norm_eps_denom: 1_000_000,
        latent_dim: 8,
    }
}

fn small_seanet_config() -> SEANetConfig {
    SEANetConfig {
        latent_dim: 8,
        channels: vec![8, 4],
        kernel_sizes: vec![3],
        strides: vec![2],
        sample_rate: 24000,
    }
}

#[test]
fn test_flowlm_cache_accumulates_across_chunks() {
    let device = Device::Cpu;
    let ws = WeightStore::zeros(&device);
    let config = small_flowlm_config();
    let mut flowlm = FlowLM::new(config, &ws, &device).unwrap();
    assert_eq!(flowlm.cache_seq_len(), 0);

    let chunk1 = Tensor::from_vec(vec![1u32, 2, 3, 4, 5], (1, 5), &device).unwrap();
    flowlm.forward(&chunk1, None, true, &device).unwrap();
    assert_eq!(flowlm.cache_seq_len(), 5);

    let chunk2 = Tensor::from_vec(vec![6u32, 7, 8], (1, 3), &device).unwrap();
    flowlm.forward(&chunk2, None, true, &device).unwrap();
    assert_eq!(flowlm.cache_seq_len(), 8);

    flowlm.reset_cache();
    assert_eq!(flowlm.cache_seq_len(), 0);
}

#[test]
fn test_flowlm_stateless_pass_leaves_cache_empty() {
    let device = Device::Cpu;
    let ws = WeightStore::zeros(&device);
    let mut flowlm = FlowLM::new(small_flowlm_config(), &ws, &device).unwrap();
    let ids = Tensor::from_vec(vec![1u32, 2, 3], (1, 3), &device).unwrap();
    let latents = flowlm.forward(&ids, None, false, &device).unwrap();
    assert_eq!(latents.dims(), &[1, 3, 8]);
    assert_eq!(flowlm.cache_seq_len(), 0);
}

#[test]
fn test_one_shot_and_chunked_latents_agree() {
    // the same token sequence, in one pass without caching and in two cached
    // chunks, must give the same latent frames position for position
    let device = Device::Cpu;
    let ws = WeightStore::zeros(&device);
    let config = small_flowlm_config();
    let ids: Vec<u32> = vec![3, 1, 4, 1, 5, 9, 2, 6];

    let mut one_shot = FlowLM::new(config, &ws, &device).unwrap();
    let all = Tensor::from_vec(ids.clone(), (1, ids.len()), &device).unwrap();
    let full = one_shot.forward(&all, None, false, &device).unwrap();
    let full_values: Vec<f32> = full.flatten_all().unwrap().to_vec1().unwrap();

    let mut chunked = FlowLM::new(config, &ws, &device).unwrap();
    chunked.reset_cache();
    let first = Tensor::from_vec(ids[..5].to_vec(), (1, 5), &device).unwrap();
    let second = Tensor::from_vec(ids[5..].to_vec(), (1, 3), &device).unwrap();
    let out1 = chunked.forward(&first, None, true, &device).unwrap();
    let out2 = chunked.forward(&second, None, true, &device).unwrap();
    let both = Tensor::cat(&[&out1, &out2], 1).unwrap();
    let chunked_values: Vec<f32> = both.flatten_all().unwrap().to_vec1().unwrap();

    assert_eq!(full_values.len(), chunked_values.len());
    for (a, b) in full_values.iter().zip(chunked_values.iter()) {
        assert!((a - b).abs() < 1e-5, "latents diverge: {} vs {}", a, b);
    }
}

struct WeightFileBuilder {
    entries: Vec<String>,
    data: Vec<u8>,
}

impl WeightFileBuilder {
    fn new() -> Self {
        WeightFileBuilder { entries: Vec::new(), data: Vec::new() }
    }

    // deterministic, nonzero pseudo-weights
    fn add(&mut self, name: &str, shape: &[usize]) {
        let n: usize = shape.iter().product();
        let start = self.data.len();
        for k in 0..n {
            let x = ((((k * 31 + name.len() * 17 + 7) % 23) as f32) / 23.0 - 0.5) * 0.2;
            self.data.extend_from_slice(&x.to_le_bytes());
        }
        let end = self.data.len();
        let dims: Vec<String> = shape.iter().map(|d| d.to_string()).collect();
        self.entries.push(format!(
            "\"{}\":{{\"dtype\":\"F32\",\"shape\":[{}],\"data_offsets\":[{},{}]}}",
            name,
            dims.join(","),
            start,
            end
        ));
    }

    fn finish(self) -> Vec<u8> {
        let header = format!("{{{}}}", self.entries.join(","));
        let mut out = (header.len() as u64).to_le_bytes().to_vec();
        out.extend_from_slice(header.as_bytes());
        out.extend_from_slice(&self.data);
        out
    }
}

fn small_backbone_weights() -> Vec<u8> {
    let h = 32usize;
    let inter = 64usize;
    let vocab = 128usize;
    let latent = 8usize;
    let mut b = WeightFileBuilder::new();
    b.add("embed_tokens.weight", &[vocab, h]);
    for i in 0..2 {
        for p in ["q_proj", "k_proj", "v_proj", "o_proj"] {
            b.add(&format!("layers.{}.self_attn.{}.weight", i, p), &[h, h]);
            b.add(&format!("layers.{}.self_attn.{}.bias", i, p), &[h]);
        }
        for p in ["gate_proj", "up_proj"] {
            b.add(&format!("layers.{}.mlp.{}.weight", i, p), &[inter, h]);
            b.add(&format!("layers.{}.mlp.{}.bias", i, p), &[inter]);
        }
        b.add(&format!("layers.{}.mlp.down_proj.weight", i), &[h, inter]);
        b.add(&format!("layers.{}.mlp.down_proj.bias", i), &[h]);
        b.add(&format!("layers.{}.input_layernorm.weight", i), &[h]);
        b.add(&format!("layers.{}.post_attention_layernorm.weight", i), &[h]);
    }
    b.add("norm.weight", &[h]);
    b.add("latent_proj.weight", &[latent, h]);
    b.add("latent_proj.bias", &[latent]);
    b.finish()
}

#[test]
fn test_one_shot_and_chunked_latents_agree_nonzero_weights() {
    // the chunk-invariance property with real, nonzero weights: causal mask
    // plus offset-aware rotary encoding make the latent frames independent
    // of the chunking, up to floating-point rounding
    let device = Device::Cpu;
    let data = small_backbone_weights();
    let ws = WeightStore::from_safetensors_bytes(data, &device).unwrap();
    let config = small_flowlm_config();
    let ids: Vec<u32> = vec![3, 1, 4, 1, 5, 9, 2, 6, 5, 3];

    let mut one_shot = FlowLM::new(config, &ws, &device).unwrap();
    let all = Tensor::from_vec(ids.clone(), (1, ids.len()), &device).unwrap();
    let full = one_shot.forward(&all, None, false, &device).unwrap();
    let full_values: Vec<f32> = full.flatten_all().unwrap().to_vec1().unwrap();
    assert!(full_values.iter().any(|v| v.abs() > 1e-6), "weights should be nonzero");

    let mut chunked = FlowLM::new(config, &ws, &device).unwrap();
    chunked.reset_cache();
    let mut collected: Vec<f32> = Vec::new();
    for chunk in ids.chunks(4) {
        let t = Tensor::from_vec(chunk.to_vec(), (1, chunk.len()), &device).unwrap();
        let out = chunked.forward(&t, None, true, &device).unwrap();
        let mut values: Vec<f32> = out.flatten_all().unwrap().to_vec1().unwrap();
        collected.append(&mut values);
    }
    assert_eq!(chunked.cache_seq_len(), ids.len());

    assert_eq!(full_values.len(), collected.len());
    for (a, b) in full_values.iter().zip(collected.iter()) {
        assert!((a - b).abs() < 1e-4, "latents diverge: {} vs {}", a, b);
    }
}

#[test]
fn test_seanet_decoder_output_length() {
    // one block of stride 2: l frames become (l-1)*2 - 2*1 + 3 + 1 = 2l
    let device = Device::Cpu;
    let ws = WeightStore::zeros(&device);
    let decoder = SEANetDecoder::new(small_seanet_config(), &ws).unwrap();
    let latents = Tensor::randn(0.0f32, 1.0, (1, 10, 8), &device).unwrap();
    let audio = decoder.forward(&latents).unwrap();
    assert_eq!(audio.dims(), &[1, 20]);
    assert_eq!(decoder.upsampling_ratio(), 2);
}

#[test]
fn test_default_decoder_ratio_and_length() {
    // the reference decoder turns l frames into 320 l + 8 samples
    let device = Device::Cpu;
    let ws = WeightStore::zeros(&device);
    let decoder = SEANetDecoder::new(SEANetConfig::default(), &ws).unwrap();
    assert_eq!(decoder.upsampling_ratio(), 320);
    let latents = Tensor::randn(0.0f32, 1.0, (1, 3, 512), &device).unwrap();
    let audio = decoder.forward(&latents).unwrap();
    assert_eq!(audio.dims(), &[1, 320 * 3 + 8]);
}

#[test]
fn test_mimi_decode_streaming_lengths() {
    let device = Device::Cpu;
    let ws = WeightStore::zeros(&device);
    let config = MimiConfig {
        latent_dim: 8,
        mimi_dim: 8,
        sample_rate: 24000,
        frame_rate_milli: 12500,
        seanet_config: small_seanet_config(),
    };
    let mimi = MimiDecoder::new(config, &ws).unwrap();
    let latents = Tensor::randn(0.0f32, 1.0, (1, 10, 8), &device).unwrap();

    // first chunk: emitted as-is, tail saved
    let (audio1, tail1) = mimi.decode_streaming(&latents, 6, None).unwrap();
    assert_eq!(audio1.dims(), &[1, 20]);
    assert_eq!(tail1.dims(), &[6]);

    // second chunk: blended against the tail, same emitted length
    let (audio2, tail2) = mimi.decode_streaming(&latents, 6, Some(&tail1)).unwrap();
    assert_eq!(audio2.dims(), &[1, 20]);
    assert_eq!(tail2.dims(), &[6]);
}

#[test]
fn test_crossfade_continuity_zero_weights() {
    // with all-zero weights every decoded sample is zero, so the blended
    // boundary introduces no jump at all
    let device = Device::Cpu;
    let ws = WeightStore::zeros(&device);
    let config = MimiConfig {
        latent_dim: 8,
        mimi_dim: 8,
        sample_rate: 24000,
        frame_rate_milli: 12500,
        seanet_config: small_seanet_config(),
    };
    let mimi = MimiDecoder::new(config, &ws).unwrap();
    let latents = Tensor::randn(0.0f32, 1.0, (1, 16, 8), &device).unwrap();
    let (_, tail) = mimi.decode_streaming(&latents, 8, None).unwrap();
    let (audio, _) = mimi.decode_streaming(&latents, 8, Some(&tail)).unwrap();
    let samples: Vec<f32> = audio.squeeze(0).unwrap().to_vec1().unwrap();
    let fade = 8usize;
    // per-sample delta implied by the linear ramp over the fade window
    let bound = 2.0f32 / fade as f32 + 1e-4;
    let jump = (samples[fade] - samples[fade - 1]).abs();
    assert!(jump <= bound, "discontinuity {} exceeds {}", jump, bound);
}

#[test]
fn test_model_synthesize_and_stream() {
    let device = Device::Cpu;
    let ws = WeightStore::zeros(&device);
    let tokenizer = PocketTokenizer::minimal();
    let bank = VoiceBank::new(1024);
    let mut model = PocketTTSModel::new(&ws, tokenizer, bank, device).unwrap();

    // one-shot: "hi" gives 4 tokens, hence 320 * 4 + 8 samples
    let audio = model.synthesize("hi").unwrap();
    assert_eq!(audio.dims(), &[320 * 4 + 8]);
    assert_eq!(model.cache_seq_len(), 0);
    let samples: Vec<f32> = audio.to_vec1().unwrap();
    assert!(samples.iter().all(|&s| s.abs() <= 1.0));

    // streaming: 40 characters tokenize to 42 ids, split 32 + 10; the caches
    // accumulate the full count and the last chunk is marked final
    let text = "abcdefghijklmnopqrstuvwxyz0123456789.,!?";
    let mut session = model.begin_streaming(text).unwrap();
    assert_eq!(session.chunk_count(), 2);
    let mut produced = 0usize;
    let mut finals = Vec::new();
    while let Some((chunk, is_final)) = model.next_chunk(&mut session).unwrap() {
        assert_eq!(chunk.dims().len(), 2);
        produced += 1;
        finals.push(is_final);
    }
    assert_eq!(produced, 2);
    assert_eq!(finals, vec![false, true]);
    assert_eq!(model.cache_seq_len(), 42);
}

#[test]
fn test_one_second_scenario() {
    // a 24000 Hz, one-second all-zero input: 75 latent frames decode through
    // the causal convolution chain to 75 frames times the upsampling ratio
    // (plus the fixed eight-sample edge), within a millisecond of one second
    let device = Device::Cpu;
    let ws = WeightStore::zeros(&device);
    let mimi = MimiDecoder::new(MimiConfig::default(), &ws).unwrap();
    let frames = 75usize;
    let latents = Tensor::zeros((1, frames, 32), candle_core::DType::F32, &device).unwrap();
    let audio = mimi.forward(&latents).unwrap();
    let count = audio.dims()[1];
    assert_eq!(count, frames * 320 + 8);
    let duration = count as f64 / 24000.0;
    assert!((duration - 1.0).abs() < 0.001);
    let samples: Vec<f32> = audio.squeeze(0).unwrap().to_vec1().unwrap();
    assert!(samples.iter().all(|&s| s == 0.0));
}

#[test]
fn test_configure_rejects_and_keeps_previous() {
    let device = Device::Cpu;
    let ws = WeightStore::zeros(&device);
    let tokenizer = PocketTokenizer::minimal();
    let bank = VoiceBank::new(1024);
    let mut model = PocketTTSModel::new(&ws, tokenizer, bank, device).unwrap();

    let good = pocket_tts::TTSConfig {
        consistency_steps: 3,
        ..pocket_tts::TTSConfig::default()
    };
    assert!(model.configure(good).is_ok());

    let bad = pocket_tts::TTSConfig {
        voice_index: 99,
        ..pocket_tts::TTSConfig::default()
    };
    let err = model.configure(bad).unwrap_err();
    assert!(err.message().contains("Voice index"));
}
