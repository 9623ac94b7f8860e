//! The complete synthesis pipeline: tokenizer, transformer backbone,
//! consistency sampler, and decoder, with one-shot and streaming entry
//! points.
//!
//! Streaming is pull-based: a session partitions the token ids into fixed
//! chunks, and each `next_chunk` call runs the backbone with its caches, the
//! sampler, and the crossfading decoder for one chunk.  The consumer decides
//! between chunks whether to go on, which is the only cancellation point.

use vstd::prelude::*;
use vstd::string::StringExecFns;

use candle_core::Device;
use candle_core::Tensor;

use crate::config::TTSConfig;
use crate::error::PocketTTSError;
use crate::models::flowlm::FlowLM;
use crate::models::flowlm::FlowLMConfig;
use crate::models::mimi::MimiConfig;
use crate::models::mimi::MimiDecoder;
use crate::modules::embeddings::VoiceBank;
use crate::modules::embeddings::VoiceEmbedding;
use crate::modules::mlp::MLPSampler;
use crate::tensors::cpu_float;
use crate::tensors::cpu_ids;
use crate::tensors::cpu_store;
use crate::tensors::dims_of;
use crate::tensors::ids_of;
use crate::tensors::is_cpu;
use crate::tensors::tensor_from_ids;
use crate::tensors::WeightStore;
use crate::tensors::tensor_squeeze;
use crate::tokenizer::spec_encode;
use crate::tokenizer::PocketTokenizer;

verus! {

/// Tokens fed to the backbone per streaming chunk.
pub const CHUNK_TOKENS: usize = 32;

/// Split ids into chunks of at most `size` tokens: all chunks are full except
/// possibly the last, and in order they lay the input back out exactly.
fn chunk_ids(ids: &Vec<u32>, size: usize) -> (r: Vec<Vec<u32>>)
    requires
        size >= 1,
    ensures
        seqs_flatten(r@.map_values(|c: Vec<u32>| c@)) == ids@,
        forall|i: int| 0 <= i < r@.len() ==> 1 <= (#[trigger] r@[i])@.len() <= size,
        forall|i: int| 0 <= i < r@.len() - 1 ==> (#[trigger] r@[i])@.len() == size,
{
    let n = ids.len();
    let mut chunks: Vec<Vec<u32>> = Vec::new();
    let mut i: usize = 0;
    while i < n
        invariant
            n == ids@.len(),
            i <= ids@.len(),
            size >= 1,
            seqs_flatten(chunks@.map_values(|c: Vec<u32>| c@)) == ids@.take(i as int),
            forall|j: int| 0 <= j < chunks@.len() ==> 1 <= (#[trigger] chunks@[j])@.len() <= size,
            forall|j: int|
                0 <= j < chunks@.len() - 1 ==> (#[trigger] chunks@[j])@.len() == size,
            chunks@.len() > 0 && chunks@.last()@.len() < size ==> i == ids@.len(),
        decreases ids@.len() - i,
    {
        let remaining = ids.len() - i;
        let take = if remaining < size {
            remaining
        } else {
            size
        };
        let mut chunk: Vec<u32> = Vec::new();
        let mut j: usize = 0;
        while j < take
            invariant
                j <= take,
                i + take <= n,
                n == ids@.len(),
                chunk@.len() == j,
                chunk@ == ids@.subrange(i as int, i + j),
            decreases take - j,
        {
            let ghost pre = chunk@;
            chunk.push(ids[i + j]);
            proof {
                assert(chunk@ =~= ids@.subrange(i as int, i + j + 1));
            }
            j = j + 1;
        }
        let ghost pre_chunks = chunks@.map_values(|c: Vec<u32>| c@);
        chunks.push(chunk);
        proof {
            assert(chunks@.map_values(|c: Vec<u32>| c@) =~= pre_chunks.push(chunk@));
            lemma_seqs_flatten_push(pre_chunks, chunk@);
            assert(ids@.take(i as int) + ids@.subrange(i as int, i + take) =~= ids@.take(
                i + take,
            ));
        }
        i = i + take;
    }
    proof {
        assert(ids@.take(ids@.len() as int) =~= ids@);
    }
    chunks
}

/// The concatenation of a list of id sequences, in order.
pub open spec fn seqs_flatten(cs: Seq<Seq<u32>>) -> Seq<u32>
    decreases cs.len(),
{
    if cs.len() == 0 {
        Seq::<u32>::empty()
    } else {
        seqs_flatten(cs.drop_last()) + cs.last()
    }
}

/// Law (chunk invariance, structural part): however the token ids are
/// partitioned into chunks, the chunks concatenate back to the ids, so the
/// chunked passes feed the backbone the same positions as a single pass.
pub proof fn lemma_seqs_flatten_push(cs: Seq<Seq<u32>>, c: Seq<u32>)
    ensures
        seqs_flatten(cs.push(c)) == seqs_flatten(cs) + c,
{
    assert(cs.push(c).drop_last() =~= cs);
    assert(cs.push(c).last() == c);
}

/// A streaming synthesis session: the chunked token ids, the position of the
/// next chunk, and the previous chunk's unblended tail.
pub struct StreamingState {
    chunks: Vec<Vec<u32>>,
    next: usize,
    prev_tail: Option<Tensor>,
    overlap: usize,
}

impl StreamingState {
    /// Chunks are non-empty, the cursor stays in range, and a held tail is a
    /// one-dimensional sample row.
    pub closed spec fn wf(self) -> bool {
        &&& self.next <= self.chunks@.len()
        &&& forall|i: int| 0 <= i < self.chunks@.len() ==> 1 <= (#[trigger] self.chunks@[i])@.len()
        &&& self.overlap <= 0xffff_ffff
        &&& (self.prev_tail matches Some(t) ==> dims_of(t).len() == 1)
    }

    /// The token ids of every chunk, in order.
    pub closed spec fn spec_chunks(self) -> Seq<Seq<u32>> {
        self.chunks@.map_values(|c: Vec<u32>| c@)
    }

    /// Is the held tail, when any, a processor float row?
    pub closed spec fn spec_tail_cpu(self) -> bool {
        self.prev_tail matches Some(t) ==> cpu_float(t)
    }

    /// How many chunks have been emitted.
    pub closed spec fn spec_next(self) -> int {
        self.next as int
    }

    /// How many chunks the session holds in all.
    pub fn chunk_count(&self) -> (n: usize)
        ensures
            n == self.spec_chunks().len(),
    {
        self.chunks.len()
    }
}

/// The complete TTS model.
pub struct PocketTTSModel {
    flowlm: FlowLM,
    sampler: MLPSampler,
    mimi: MimiDecoder,
    tokenizer: PocketTokenizer,
    voice_bank: VoiceBank,
    device: Device,
    config: TTSConfig,
    custom_voice: Option<VoiceEmbedding>,
}

impl PocketTTSModel {
    /// All stages agree on the latent width, and the active configuration is
    /// valid.
    pub closed spec fn wf(self) -> bool {
        &&& self.flowlm.wf()
        &&& self.sampler.wf()
        &&& self.sampler.spec_output_dim() == self.flowlm.spec_config().latent_dim
        &&& self.sampler.spec_input_dim() == self.flowlm.spec_config().latent_dim
        &&& self.sampler.spec_output_dim() <= 0xffff_ffff
        &&& self.mimi.wf()
        &&& self.mimi.spec_config().latent_dim == self.flowlm.spec_config().latent_dim
        &&& self.voice_bank.wf()
        &&& (self.custom_voice matches Some(v) ==> v.wf())
        &&& self.config.valid()
    }

    /// The active synthesis configuration.
    pub closed spec fn spec_config(self) -> TTSConfig {
        self.config
    }

    /// The tokenizer in use.
    pub closed spec fn spec_tokenizer(self) -> PocketTokenizer {
        self.tokenizer
    }

    /// The accumulated cache length of the backbone.
    pub closed spec fn spec_cache_len(self) -> int {
        self.flowlm.spec_cache_len()
    }

    /// The custom voice overriding the bank, when one is set.
    pub closed spec fn spec_custom_voice(self) -> Option<VoiceEmbedding> {
        self.custom_voice
    }

    /// The token ids the model's tokenizer assigns a text.
    pub open spec fn spec_token_ids(self, text: Seq<char>) -> Seq<u32> {
        spec_encode(
            self.spec_tokenizer().vocab(),
            self.spec_tokenizer().bos(),
            self.spec_tokenizer().eos(),
            self.spec_tokenizer().unk(),
            text,
        )
    }

    /// The number of waveform samples decoded from `frames` latent frames.
    pub closed spec fn spec_out_samples(self, frames: int) -> int {
        self.mimi.spec_out_samples(frames)
    }

    /// The backbone configuration in use.
    pub closed spec fn spec_flowlm_config(self) -> FlowLMConfig {
        self.flowlm.spec_config()
    }

    /// Are all weights and tables 32-bit floats, held with the model's
    /// device on the processor?
    pub closed spec fn on_cpu(self) -> bool {
        &&& self.flowlm.on_cpu()
        &&& self.sampler.on_cpu()
        &&& self.mimi.on_cpu()
        &&& is_cpu(self.device)
    }

    /// Are the backbone's caches ready for the single-sequence batch?
    pub closed spec fn spec_caches_ready(self) -> bool {
        self.flowlm.caches_ready(1)
    }

    /// Does the voice this pass would use (custom, or the configured bank
    /// entry when present) fit a chunk of `s` tokens?
    pub closed spec fn active_voice_fits(self, s: int) -> bool {
        match self.custom_voice {
            Some(v) => v.spec_cpu() && v.spec_voice_dim()
                == self.flowlm.spec_config().hidden_size && (v.spec_prompt_len() == 1
                || v.spec_prompt_len() == s),
            None => (self.config.voice_index as int) < self.voice_bank.spec_voices().len() ==> ({
                let v = self.voice_bank.spec_voices()[self.config.voice_index as int];
                v.spec_cpu() && v.spec_voice_dim() == self.flowlm.spec_config().hidden_size && (
                v.spec_prompt_len() == 1 || v.spec_prompt_len() == s)
            }),
        }
    }

    /// When one-shot synthesis is owed success: a processor-backed model, a
    /// text whose token count fits the rotary table and the address space,
    /// every id inside the vocabulary, and a fitting voice.
    pub open spec fn synthesis_fits(self, text: Seq<char>) -> bool {
        let ids = self.spec_token_ids(text);
        &&& self.on_cpu()
        &&& 2 <= ids.len()
        &&& ids.len() <= self.spec_flowlm_config().max_seq_len
        &&& ids.len() * ids.len() <= usize::MAX
        &&& forall|i: int|
            0 <= i < ids.len() ==> (#[trigger] ids[i]) < self.spec_flowlm_config().vocab_size
        &&& self.active_voice_fits(ids.len() as int)
    }

    /// When producing the next streaming chunk is owed success: a ready
    /// processor-backed model and session, and a next chunk that decodes
    /// (two or more tokens), stays inside the vocabulary, and fits the
    /// remaining rotary window and the address space.
    pub open spec fn next_chunk_fits(self, st: StreamingState) -> bool {
        &&& self.on_cpu()
        &&& st.spec_tail_cpu()
        &&& self.spec_caches_ready()
        &&& (st.spec_next() < st.spec_chunks().len() ==> ({
            let c = st.spec_chunks()[st.spec_next()];
            &&& 2 <= c.len()
            &&& forall|i: int|
                0 <= i < c.len() ==> (#[trigger] c[i]) < self.spec_flowlm_config().vocab_size
            &&& self.spec_cache_len() + c.len() <= self.spec_flowlm_config().max_seq_len
            &&& c.len() * (self.spec_cache_len() + c.len()) <= usize::MAX
            &&& self.active_voice_fits(c.len() as int)
        }))
    }

    /// Assemble the pipeline around a weight store, a tokenizer and a voice
    /// bank, with the reference model's architecture and the default
    /// synthesis configuration.
    pub fn new(
        ws: &WeightStore,
        tokenizer: PocketTokenizer,
        voice_bank: VoiceBank,
        device: Device,
    ) -> (r: Result<PocketTTSModel, PocketTTSError>)
        requires
            voice_bank.wf(),
        ensures
            r matches Ok(m) ==> ({
                &&& m.wf()
                &&& m.spec_config() == TTSConfig::default_spec()
                &&& m.spec_cache_len() == 0
                &&& m.spec_tokenizer() == tokenizer
                &&& m.spec_custom_voice() == None::<VoiceEmbedding>
                &&& m.spec_caches_ready()
                &&& (cpu_store(*ws) && is_cpu(device) ==> m.on_cpu())
            }),
            r matches Err(e) ==> e is ModelLoadFailed,
    {
        let flowlm_config = FlowLMConfig::default();
        let flowlm = FlowLM::new(flowlm_config, &ws.sub("flowlm"), &device)?;
        let sampler = MLPSampler::new(
            flowlm_config.latent_dim,
            512,
            flowlm_config.latent_dim,
            4,
            &ws.sub("sampler"),
        )?;
        let mut mimi_config = MimiConfig::default();
        mimi_config.latent_dim = flowlm_config.latent_dim;
        let mimi = MimiDecoder::new(mimi_config, &ws.sub("mimi"))?;
        Ok(
            PocketTTSModel {
                flowlm,
                sampler,
                mimi,
                tokenizer,
                voice_bank,
                device,
                config: TTSConfig::default(),
                custom_voice: None,
            },
        )
    }

    /// Configure synthesis parameters: an invalid configuration is rejected
    /// whole and the previous one stays in effect; a valid one is applied,
    /// and the sampler follows its consistency step count.
    pub fn configure(&mut self, config: TTSConfig) -> (r: Result<(), PocketTTSError>)
        requires
            old(self).wf(),
        ensures
            final(self).wf(),
            r is Ok <==> config.valid(),
            r is Ok ==> final(self).spec_config() == config,
            r matches Err(e) ==> *final(self) == *old(self) && (e matches
                PocketTTSError::InvalidConfig(m) && m@ == config.spec_validate()->Err_0),
            final(self).spec_tokenizer() == old(self).spec_tokenizer(),
    {
        match config.validate() {
            Ok(()) => {
                self.config = config;
                self.sampler.set_num_steps(config.consistency_steps as usize);
                Ok(())
            },
            Err(msg) => Err(PocketTTSError::InvalidConfig(msg)),
        }
    }

    /// Set a custom voice: it overrides the bank until cleared, and nothing
    /// else changes.
    pub fn set_custom_voice(&mut self, embedding: VoiceEmbedding)
        requires
            old(self).wf(),
            embedding.wf(),
        ensures
            final(self).wf(),
            final(self).spec_custom_voice() == Some(embedding),
            final(self).spec_config() == old(self).spec_config(),
            final(self).spec_tokenizer() == old(self).spec_tokenizer(),
            final(self).spec_cache_len() == old(self).spec_cache_len(),
    {
        self.custom_voice = Some(embedding);
    }

    /// Clear the custom voice and fall back to the built-in bank; nothing
    /// else changes.
    pub fn clear_custom_voice(&mut self)
        requires
            old(self).wf(),
        ensures
            final(self).wf(),
            final(self).spec_custom_voice() == None::<VoiceEmbedding>,
            final(self).spec_config() == old(self).spec_config(),
            final(self).spec_tokenizer() == old(self).spec_tokenizer(),
            final(self).spec_cache_len() == old(self).spec_cache_len(),
    {
        self.custom_voice = None;
    }

    /// The voice for this pass: the custom voice when set, else the bank's
    /// entry for the configured index (no conditioning when absent).
    fn active_voice(&self) -> (r: Option<&VoiceEmbedding>)
        requires
            self.wf(),
        ensures
            r matches Some(v) ==> v.wf(),
    {
        if let Some(custom) = &self.custom_voice {
            Some(custom)
        } else {
            self.voice_bank.get(self.config.voice_index as usize)
        }
    }

    /// Synthesize text to a waveform tensor of shape [samples]: tokenize,
    /// reset the caches, run the backbone in one pass, refine with the
    /// sampler, and decode.  The sample count is fixed by the token count
    /// through the decoder's length formulas.
    pub fn synthesize(&mut self, text: &str) -> (r: Result<Tensor, PocketTTSError>)
        requires
            old(self).wf(),
        ensures
            final(self).wf(),
            final(self).spec_config() == old(self).spec_config(),
            final(self).spec_tokenizer() == old(self).spec_tokenizer(),
            old(self).synthesis_fits(text@) ==> r is Ok,
            r matches Ok(o) ==> ({
                let ids = old(self).spec_token_ids(text@);
                &&& ids.len() >= 2
                &&& dims_of(o) == seq![old(self).spec_out_samples(ids.len() as int)]
            }),
    {
        let ghost fine = old(self).synthesis_fits(text@);
        let token_ids = match self.tokenizer.encode(text) {
            Ok(ids) => ids,
            Err(e) => {
                return Err(e);
            },
        };
        if token_ids.len() < 2 {
            return Err(
                PocketTTSError::InferenceFailed(
                    String::from_str("input yields too few tokens to decode"),
                ),
            );
        }
        let token_tensor = tensor_from_ids(&token_ids, &self.device)?;
        let device = crate::tensors::tensor_device(&token_tensor);

        self.flowlm.reset_cache();

        let latents = match &self.custom_voice {
            Some(custom) => {
                proof {
                    if fine {
                        assert(self.flowlm.forward_fits(
                            dims_of(token_tensor),
                            token_tensor,
                            crate::models::flowlm::voice_view(Some(custom)),
                            false,
                            device,
                        ));
                    }
                }
                self.flowlm.forward(&token_tensor, Some(custom), false, &device)?
            },
            None => {
                let voice = self.voice_bank.get(self.config.voice_index as usize);
                proof {
                    if fine {
                        assert(self.flowlm.forward_fits(
                            dims_of(token_tensor),
                            token_tensor,
                            crate::models::flowlm::voice_view(voice),
                            false,
                            device,
                        ));
                    }
                }
                self.flowlm.forward(&token_tensor, voice, false, &device)?
            },
        };
        let sampled = self.sampler.sample(
            &latents,
            self.config.temperature_milli,
            self.config.top_p_milli,
            &device,
        )?;
        let audio = self.mimi.forward(&sampled)?;
        let out = tensor_squeeze(&audio, 0)?;
        proof {
            assert(dims_of(out) =~= seq![
                old(self).spec_out_samples(old(self).spec_token_ids(text@).len() as int),
            ]);
        }
        Ok(out)
    }

    /// Begin a streaming session: tokenize the whole text, reset the caches,
    /// and partition the ids into fixed-size chunks whose concatenation is
    /// exactly the one-shot token sequence.
    pub fn begin_streaming(&mut self, text: &str) -> (r: Result<StreamingState, PocketTTSError>)
        requires
            old(self).wf(),
        ensures
            final(self).wf(),
            final(self).spec_config() == old(self).spec_config(),
            final(self).spec_tokenizer() == old(self).spec_tokenizer(),
            old(self).spec_mimi_sample_rate() * 50 / 1000 <= 0xffff_ffff ==> r is Ok,
            r matches Ok(st) ==> ({
                &&& st.wf()
                &&& st.spec_tail_cpu()
                &&& seqs_flatten(st.spec_chunks()) == old(self).spec_token_ids(text@)
                &&& forall|i: int|
                    0 <= i < st.spec_chunks().len() ==> (#[trigger] st.spec_chunks()[i]).len()
                        <= CHUNK_TOKENS
                &&& forall|i: int|
                    0 <= i < st.spec_chunks().len() - 1 ==> (#[trigger] st.spec_chunks()[i]).len()
                        == CHUNK_TOKENS
                &&& st.spec_next() == 0
                &&& final(self).spec_cache_len() == 0
                &&& final(self).spec_caches_ready()
            }),
    {
        let token_ids = match self.tokenizer.encode(text) {
            Ok(ids) => ids,
            Err(e) => {
                return Err(e);
            },
        };
        self.flowlm.reset_cache();
        let chunks = chunk_ids(&token_ids, CHUNK_TOKENS);
        let rate = self.mimi.sample_rate();
        proof {
            assert(rate * 50 <= rate * 1000) by (nonlinear_arith)
                requires
                    0 <= rate,
            ;
        }
        let overlap = rate * 50 / 1000;
        if overlap > 4294967295 {
            return Err(
                PocketTTSError::InferenceFailed(String::from_str("overlap window too large")),
            );
        }
        Ok(StreamingState { chunks, next: 0, prev_tail: None, overlap })
    }

    /// Produce the next audio chunk of a session, or nothing when the
    /// session is done.  A produced chunk reports whether it is the last;
    /// on success the backbone's caches have grown by exactly the chunk's
    /// token count, which is how chunked passes line up with a single pass.
    /// A trailing chunk of a single token is rejected with an error rather
    /// than decoded: one latent frame is too short for the upsampling stack
    /// (the length formula of its transposed convolutions would underflow).
    pub fn next_chunk(&mut self, st: &mut StreamingState) -> (r: Result<
        Option<(Tensor, bool)>,
        PocketTTSError,
    >)
        requires
            old(self).wf(),
            old(st).wf(),
        ensures
            final(self).wf(),
            final(st).wf(),
            final(self).spec_config() == old(self).spec_config(),
            final(self).spec_tokenizer() == old(self).spec_tokenizer(),
            final(st).spec_chunks() == old(st).spec_chunks(),
            old(self).next_chunk_fits(*old(st)) ==> r is Ok,
            r matches Ok(Some(p)) ==> ({
                let chunk = old(st).spec_chunks()[old(st).spec_next()];
                &&& old(st).spec_next() < old(st).spec_chunks().len()
                &&& final(st).spec_next() == old(st).spec_next() + 1
                &&& final(self).spec_cache_len() == old(self).spec_cache_len() + chunk.len()
                &&& dims_of(p.0) == seq![1int, old(self).spec_out_samples(chunk.len() as int)]
                &&& p.1 == (old(st).spec_next() + 1 == old(st).spec_chunks().len())
                &&& (old(self).next_chunk_fits(*old(st)) ==> final(self).spec_caches_ready()
                    && final(st).spec_tail_cpu())
            }),
            r matches Ok(None) ==> old(st).spec_next() == old(st).spec_chunks().len() && *final(st)
                == *old(st) && final(self).spec_cache_len() == old(self).spec_cache_len(),
    {
        let ghost fine = old(self).next_chunk_fits(*old(st));
        if st.next >= st.chunks.len() {
            return Ok(None);
        }
        let chunk = &st.chunks[st.next];
        proof {
            assert(chunk@ == old(st).spec_chunks()[old(st).spec_next()]);
        }
        if chunk.len() < 2 {
            return Err(
                PocketTTSError::InferenceFailed(
                    String::from_str("chunk yields too few latent frames to decode"),
                ),
            );
        }
        let token_tensor = tensor_from_ids(chunk, &self.device)?;
        let device = crate::tensors::tensor_device(&token_tensor);

        let latents = match &self.custom_voice {
            Some(custom) => {
                proof {
                    if fine {
                        assert(self.flowlm.forward_fits(
                            dims_of(token_tensor),
                            token_tensor,
                            crate::models::flowlm::voice_view(Some(custom)),
                            true,
                            device,
                        ));
                    }
                }
                self.flowlm.forward(&token_tensor, Some(custom), true, &device)?
            },
            None => {
                let voice = self.voice_bank.get(self.config.voice_index as usize);
                proof {
                    if fine {
                        assert(self.flowlm.forward_fits(
                            dims_of(token_tensor),
                            token_tensor,
                            crate::models::flowlm::voice_view(voice),
                            true,
                            device,
                        ));
                    }
                }
                self.flowlm.forward(&token_tensor, voice, true, &device)?
            },
        };
        let sampled = self.sampler.sample(
            &latents,
            self.config.temperature_milli,
            self.config.top_p_milli,
            &device,
        )?;
        let (audio, tail) = self.mimi.decode_streaming(
            &sampled,
            st.overlap,
            st.prev_tail.as_ref(),
        )?;
        st.prev_tail = Some(tail);
        let is_final = st.next + 1 == st.chunks.len();
        st.next = st.next + 1;
        Ok(Some((audio, is_final)))
    }

    /// The decoder's output sample rate.
    pub fn sample_rate(&self) -> (n: u32)
        requires
            self.wf(),
            self.spec_mimi_sample_rate() <= 0xffff_ffff,
        ensures
            n == self.spec_mimi_sample_rate(),
    {
        self.mimi.sample_rate() as u32
    }

    /// The decoder's configured sample rate.
    pub closed spec fn spec_mimi_sample_rate(self) -> int {
        self.mimi.spec_config().sample_rate as int
    }

    /// Parameter count of the reference model.
    pub fn parameter_count(&self) -> (n: u64)
        ensures
            n == 117856642u64,
    {
        117856642
    }

    /// Model version of the reference model.
    pub fn version(&self) -> (v: &'static str)
        ensures
            v@ == "1.0.2"@,
    {
        "1.0.2"
    }

    /// Current accumulated cache length of the backbone.
    pub fn cache_seq_len(&self) -> (n: usize)
        requires
            self.wf(),
        ensures
            n == self.spec_cache_len(),
    {
        self.flowlm.cache_seq_len()
    }
}

} // verus!
