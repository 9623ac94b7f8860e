//! The transformer backbone: embedded tokens, optionally conditioned on a
//! voice embedding, run through pre-normalization attention/feed-forward
//! layers and projected into latent frames.
//!
//! Each layer owns one key/value cache; with caching on, every forward pass
//! appends exactly its chunk's length to every cache, so the accumulated
//! length equals the total token count of the session.

use vstd::prelude::*;
use vstd::string::StringExecFns;

use candle_core::Device;
use candle_core::Tensor;

use crate::error::PocketTTSError;
use crate::modules::attention::KVCache;
use crate::modules::attention::MultiHeadAttention;
use crate::modules::embeddings::TextEmbedding;
use crate::modules::embeddings::VoiceEmbedding;
use crate::modules::layer_norm::RMSNorm;
use crate::modules::mlp::GatedMLP;
use crate::modules::rotary::RotaryEmbedding;
use crate::modules::attention::rotary_view;
use crate::tensors::cpu_float;
use crate::tensors::cpu_ids;
use crate::tensors::cpu_store;
use crate::tensors::dims_of;
use crate::tensors::ids_of;
use crate::tensors::is_cpu;
use crate::tensors::lemma_bcast_into;
use crate::tensors::tensor_add;
use crate::tensors::tensor_broadcast_add;
use crate::tensors::tensor_dims;
use crate::tensors::LinearLayer;
use crate::tensors::WeightStore;

verus! {

/// Backbone configuration.  Fractional quantities are held in fixed point:
/// `rms_norm_eps_denom` is the reciprocal of the normalization epsilon.
#[derive(Debug, Clone, Copy, PartialEq, Eq, Structural)]
pub struct FlowLMConfig {
    pub vocab_size: usize,
    pub hidden_size: usize,
    pub intermediate_size: usize,
    pub num_layers: usize,
    pub num_heads: usize,
    pub max_seq_len: usize,
    /// Rotary base frequency (an integer; the reference model uses 10000).
    pub rope_base: u32,
    /// Reciprocal of the normalization epsilon (a million for one millionth).
    pub rms_norm_eps_denom: u32,
    pub latent_dim: usize,
}

impl FlowLMConfig {
    /// The reference model's configuration.
    pub open spec fn default_spec() -> FlowLMConfig {
        FlowLMConfig {
            vocab_size: 32000,
            hidden_size: 1024,
            intermediate_size: 4096,
            num_layers: 6,
            num_heads: 16,
            max_seq_len: 2048,
            rope_base: 10000,
            rms_norm_eps_denom: 1000000,
            latent_dim: 32,
        }
    }

    /// What the stack's construction needs of a configuration.
    pub open spec fn valid(self) -> bool {
        &&& self.num_heads >= 1
        &&& self.num_layers >= 1
        &&& self.num_layers <= 0xffff_ffff
        &&& 1 <= self.hidden_size <= 0xffff_ffff
        &&& self.max_seq_len <= 0xffff_ffff
        &&& self.latent_dim >= 1
        &&& self.intermediate_size >= 1
        &&& self.hidden_size % self.num_heads == 0
        &&& (self.hidden_size / self.num_heads) % 2 == 0
    }
}

impl Default for FlowLMConfig {
    /// The reference model's configuration.
    fn default() -> (c: FlowLMConfig)
        ensures
            c == FlowLMConfig::default_spec(),
    {
        FlowLMConfig {
            vocab_size: 32000,
            hidden_size: 1024,
            intermediate_size: 4096,
            num_layers: 6,
            num_heads: 16,
            max_seq_len: 2048,
            rope_base: 10000,
            rms_norm_eps_denom: 1000000,
            latent_dim: 32,
        }
    }
}

/// A single pre-normalization transformer layer.
struct TransformerLayer {
    attn: MultiHeadAttention,
    mlp: GatedMLP,
    input_norm: RMSNorm,
    post_attn_norm: RMSNorm,
}

impl TransformerLayer {
    /// Every sub-block maps the same hidden width to itself.
    spec fn wf(self, hidden: int) -> bool {
        &&& self.attn.wf()
        &&& self.attn.spec_hidden() == hidden
        &&& self.mlp.wf()
        &&& self.mlp.spec_out_dim() == hidden
        &&& self.mlp.spec_in_dim() == hidden
        &&& self.input_norm.wf()
        &&& self.input_norm.spec_hidden() == hidden
        &&& self.post_attn_norm.wf()
        &&& self.post_attn_norm.spec_hidden() == hidden
    }

    /// Are all sub-blocks 32-bit floats on the processor?
    spec fn on_cpu(self) -> bool {
        &&& self.attn.on_cpu()
        &&& self.mlp.on_cpu()
        &&& self.input_norm.on_cpu()
        &&& self.post_attn_norm.on_cpu()
    }

    /// When a layer pass is owed success (mirrors the attention block's own
    /// conditions).
    spec fn fits(
        self,
        xd: Seq<int>,
        x: Tensor,
        rotary: RotaryEmbedding,
        cache: KVCache,
        use_cache: bool,
        device: Device,
    ) -> bool {
        let s = xd[1];
        let kv0: int = if use_cache {
            cache.spec_len()
        } else {
            0
        };
        &&& self.on_cpu()
        &&& cpu_float(x)
        &&& is_cpu(device)
        &&& s >= 1
        &&& self.attn.spec_num_heads() * self.attn.spec_head_dim() == self.attn.spec_hidden()
        &&& rotary.spec_cpu()
        &&& rotary.spec_dim() == self.attn.spec_head_dim()
        &&& kv0 + s <= rotary.spec_max_seq_len()
        &&& self.attn.spec_head_dim() % 2 == 0
        &&& (use_cache ==> cache.spec_cpu() && cache.spec_len() + s <= usize::MAX && (
        cache.spec_empty() || (cache.spec_batch() == xd[0] && cache.spec_heads()
            == self.attn.spec_num_heads() && cache.spec_k_dim() == self.attn.spec_head_dim()
            && cache.spec_v_dim() == self.attn.spec_head_dim())))
        &&& s * (kv0 + s) <= usize::MAX
    }

    fn new(config: &FlowLMConfig, ws: &WeightStore, device: &Device) -> (r: Result<
        TransformerLayer,
        PocketTTSError,
    >)
        requires
            config.valid(),
        ensures
            r matches Ok(l) ==> l.wf(config.hidden_size as int) && l.attn.spec_num_heads()
                == config.num_heads && l.attn.spec_head_dim() == (config.hidden_size
                / config.num_heads) as int && (cpu_store(*ws) && is_cpu(*device) ==> l.on_cpu()),
            r matches Err(e) ==> e is ModelLoadFailed,
    {
        let attn = MultiHeadAttention::new(config.hidden_size, config.num_heads, &ws.sub("self_attn"))?;
        let mlp = GatedMLP::new(config.hidden_size, config.intermediate_size, &ws.sub("mlp"))?;
        let input_norm = RMSNorm::new(
            config.hidden_size,
            config.rms_norm_eps_denom,
            &ws.sub("input_layernorm"),
            device,
        )?;
        let post_attn_norm = RMSNorm::new(
            config.hidden_size,
            config.rms_norm_eps_denom,
            &ws.sub("post_attention_layernorm"),
            device,
        )?;
        Ok(TransformerLayer { attn, mlp, input_norm, post_attn_norm })
    }

    /// Pre-norm attention with a residual, then a pre-norm feed-forward with
    /// a residual; the shape is kept, and with caching on the layer's cache
    /// grows by the chunk length.
    fn forward(
        &self,
        x: &Tensor,
        rotary: &RotaryEmbedding,
        cache: &mut KVCache,
        use_cache: bool,
        device: &Device,
    ) -> (r: Result<Tensor, PocketTTSError>)
        requires
            self.wf(dims_of(*x)[2]),
            old(cache).wf(),
            rotary.wf(),
            dims_of(*x).len() == 3,
        ensures
            self.fits(dims_of(*x), *x, *rotary, *old(cache), use_cache, *device) ==> r is Ok,
            r matches Ok(o) ==> dims_of(o) == dims_of(*x) && (self.fits(
                dims_of(*x),
                *x,
                *rotary,
                *old(cache),
                use_cache,
                *device,
            ) ==> cpu_float(o)),
            r is Ok && use_cache ==> final(cache).spec_len() == old(cache).spec_len() + dims_of(
                *x,
            )[1],
            r is Ok && use_cache && self.fits(
                dims_of(*x),
                *x,
                *rotary,
                *old(cache),
                use_cache,
                *device,
            ) ==> final(cache).spec_cpu() && !final(cache).spec_empty()
                && final(cache).spec_batch() == dims_of(*x)[0]
                && final(cache).spec_heads() == self.attn.spec_num_heads()
                && final(cache).spec_k_dim() == self.attn.spec_head_dim()
                && final(cache).spec_v_dim() == self.attn.spec_head_dim(),
            !use_cache ==> *final(cache) == *old(cache),
            final(cache).wf(),
    {
        let ghost fine = self.fits(dims_of(*x), *x, *rotary, *old(cache), use_cache, *device);
        let normed = self.input_norm.forward(x)?;
        proof {
            if fine {
                assert(self.attn.forward_fits(
                    dims_of(normed),
                    normed,
                    rotary_view(Some(rotary)),
                    *old(cache),
                    use_cache,
                    true,
                    *device,
                ));
            }
        }
        let attended = self.attn.forward(&normed, Some(rotary), cache, use_cache, true, device)?;
        proof {
            assert(dims_of(*x) =~= seq![dims_of(*x)[0], dims_of(*x)[1], dims_of(*x)[2]]);
        }
        let with_attn = tensor_add(x, &attended)?;
        let normed2 = self.post_attn_norm.forward(&with_attn)?;
        let transformed = self.mlp.forward(&normed2)?;
        proof {
            assert(dims_of(transformed) =~= dims_of(with_attn));
        }
        tensor_add(&with_attn, &transformed)
    }
}

/// The view behind an optional borrowed voice embedding.
pub open spec fn voice_view(v: Option<&VoiceEmbedding>) -> Option<VoiceEmbedding> {
    match v {
        Some(voice) => Some(*voice),
        None => None,
    }
}

/// The transformer backbone.
pub struct FlowLM {
    config: FlowLMConfig,
    text_embedding: TextEmbedding,
    layers: Vec<TransformerLayer>,
    final_norm: RMSNorm,
    latent_proj: LinearLayer,
    rotary: RotaryEmbedding,
    kv_caches: Vec<KVCache>,
}

impl FlowLM {
    /// All components agree with the configuration: one cache per layer, and
    /// a rotary table sized for the configured maximum sequence.
    pub closed spec fn wf(self) -> bool {
        &&& self.config.valid()
        &&& self.text_embedding.spec_hidden() == self.config.hidden_size
        &&& self.text_embedding.spec_vocab_size() == self.config.vocab_size
        &&& self.layers@.len() == self.config.num_layers
        &&& forall|i: int|
            0 <= i < self.layers@.len() ==> (#[trigger] self.layers@[i]).wf(
                self.config.hidden_size as int,
            )
        &&& forall|i: int|
            0 <= i < self.layers@.len() ==> (#[trigger] self.layers@[i]).attn.spec_num_heads()
                == self.config.num_heads && self.layers@[i].attn.spec_head_dim() == (
            self.config.hidden_size / self.config.num_heads) as int
        &&& self.final_norm.wf()
        &&& self.final_norm.spec_hidden() == self.config.hidden_size
        &&& self.latent_proj.in_dim == self.config.hidden_size
        &&& self.latent_proj.out_dim == self.config.latent_dim
        &&& self.rotary.wf()
        &&& self.rotary.spec_max_seq_len() == self.config.max_seq_len
        &&& self.rotary.spec_dim() == (self.config.hidden_size / self.config.num_heads) as int
        &&& self.kv_caches@.len() == self.config.num_layers
        &&& forall|i: int| 0 <= i < self.kv_caches@.len() ==> (#[trigger] self.kv_caches@[i]).wf()
    }

    /// Are all weights and tables 32-bit floats on the processor?
    pub closed spec fn on_cpu(self) -> bool {
        &&& self.text_embedding.spec_cpu()
        &&& self.final_norm.on_cpu()
        &&& self.latent_proj.cpu
        &&& self.rotary.spec_cpu()
        &&& forall|i: int| 0 <= i < self.layers@.len() ==> (#[trigger] self.layers@[i]).on_cpu()
    }

    /// Are the caches uniformly shaped for a batch of `b`: processor floats,
    /// all of one accumulated length, each empty or holding the configured
    /// head geometry?
    pub closed spec fn caches_ready(self, b: int) -> bool {
        forall|i: int|
            0 <= i < self.kv_caches@.len() ==> ({
                let c = #[trigger] self.kv_caches@[i];
                &&& c.spec_cpu()
                &&& c.spec_len() == self.spec_cache_len()
                &&& (c.spec_empty() || (c.spec_batch() == b && c.spec_heads()
                    == self.config.num_heads && c.spec_k_dim() == (self.config.hidden_size
                    / self.config.num_heads) as int && c.spec_v_dim() == (self.config.hidden_size
                    / self.config.num_heads) as int))
            })
    }

    /// When a forward pass is owed success: processor-backed weights and ids,
    /// every id below the vocabulary, a non-empty chunk whose window fits the
    /// rotary table and the address space, ready caches when they are used,
    /// and a voice that matches the hidden width and the chunk.
    pub open spec fn forward_fits(
        self,
        td: Seq<int>,
        t: Tensor,
        voice: Option<VoiceEmbedding>,
        use_cache: bool,
        device: Device,
    ) -> bool {
        let s = td[1];
        let kv0: int = if use_cache {
            self.spec_cache_len()
        } else {
            0
        };
        &&& self.on_cpu()
        &&& is_cpu(device)
        &&& cpu_ids(t)
        &&& forall|i: int|
            0 <= i < ids_of(t).len() ==> (#[trigger] ids_of(t)[i])
                < self.spec_config().vocab_size
        &&& s >= 1
        &&& kv0 + s <= self.spec_config().max_seq_len
        &&& s * (kv0 + s) <= usize::MAX
        &&& (use_cache ==> self.caches_ready(td[0]))
        &&& (voice matches Some(v) ==> v.wf() && v.spec_cpu() && v.spec_voice_dim()
            == self.spec_config().hidden_size && (v.spec_prompt_len() == 1 || v.spec_prompt_len()
            == s))
    }

    /// The configuration the backbone was built with.
    pub closed spec fn spec_config(self) -> FlowLMConfig {
        self.config
    }

    /// The accumulated sequence length of the first layer's cache; every
    /// successful cached pass grows all caches alike.
    pub closed spec fn spec_cache_len(self) -> int {
        if self.kv_caches@.len() > 0 {
            self.kv_caches@[0].spec_len()
        } else {
            0
        }
    }

    /// Build the backbone from a weight store.
    pub fn new(config: FlowLMConfig, ws: &WeightStore, device: &Device) -> (r: Result<
        FlowLM,
        PocketTTSError,
    >)
        requires
            config.valid(),
        ensures
            r matches Ok(m) ==> m.wf() && m.spec_config() == config && m.spec_cache_len() == 0 && (
            cpu_store(*ws) && is_cpu(*device) ==> m.on_cpu()) && (forall|b: int|
                m.caches_ready(b)),
            r matches Err(e) ==> e is ModelLoadFailed,
    {
        let text_embedding = TextEmbedding::new(
            config.vocab_size,
            config.hidden_size,
            &ws.sub("embed_tokens"),
        )?;
        let layers_ws = ws.sub("layers");
        let mut layers: Vec<TransformerLayer> = Vec::new();
        let mut i: usize = 0;
        while i < config.num_layers
            invariant
                i <= config.num_layers,
                config.valid(),
                cpu_store(layers_ws) == cpu_store(*ws),
                layers@.len() == i,
                forall|j: int|
                    0 <= j < i ==> (#[trigger] layers@[j]).wf(config.hidden_size as int),
                forall|j: int|
                    0 <= j < i ==> (#[trigger] layers@[j]).attn.spec_num_heads()
                        == config.num_heads && layers@[j].attn.spec_head_dim() == (
                    config.hidden_size / config.num_heads) as int,
                forall|j: int|
                    0 <= j < i ==> (cpu_store(*ws) && is_cpu(*device) ==> (
                    #[trigger] layers@[j]).on_cpu()),
            decreases config.num_layers - i,
        {
            let name = crate::error::u32_to_decimal(i as u32);
            let layer = TransformerLayer::new(&config, &layers_ws.sub(name.as_str()), device)?;
            layers.push(layer);
            i = i + 1;
        }
        let final_norm = RMSNorm::new(
            config.hidden_size,
            config.rms_norm_eps_denom,
            &ws.sub("norm"),
            device,
        )?;
        let latent_proj = LinearLayer::new(
            &ws.sub("latent_proj"),
            config.hidden_size,
            config.latent_dim,
        )?;
        let head_dim = config.hidden_size / config.num_heads;
        let rotary = match RotaryEmbedding::new(
            head_dim,
            config.max_seq_len,
            config.rope_base,
            device,
        ) {
            Ok(rope) => rope,
            Err(e) => {
                return Err(PocketTTSError::ModelLoadFailed(e.message()));
            },
        };
        let mut kv_caches: Vec<KVCache> = Vec::new();
        let mut j: usize = 0;
        while j < config.num_layers
            invariant
                j <= config.num_layers,
                kv_caches@.len() == j,
                forall|a: int|
                    0 <= a < j ==> (#[trigger] kv_caches@[a]).wf() && kv_caches@[a].spec_len() == 0
                        && kv_caches@[a].spec_cpu() && kv_caches@[a].spec_empty(),
            decreases config.num_layers - j,
        {
            kv_caches.push(KVCache::new());
            j = j + 1;
        }
        Ok(FlowLM { config, text_embedding, layers, final_norm, latent_proj, rotary, kv_caches })
    }

    /// Forward pass over one chunk of token ids, shaped [batch, seq], with
    /// optional voice conditioning.  On success the latent frames come back
    /// as [batch, seq, latent_dim]; with `use_cache` every layer's cache has
    /// grown by the chunk's length, and without it the caches are untouched.
    pub fn forward(
        &mut self,
        token_ids: &Tensor,
        voice_embedding: Option<&VoiceEmbedding>,
        use_cache: bool,
        device: &Device,
    ) -> (r: Result<Tensor, PocketTTSError>)
        requires
            old(self).wf(),
            dims_of(*token_ids).len() == 2,
            voice_embedding matches Some(v) ==> v.wf(),
        ensures
            final(self).wf(),
            final(self).spec_config() == old(self).spec_config(),
            final(self).on_cpu() == old(self).on_cpu(),
            old(self).forward_fits(
                dims_of(*token_ids),
                *token_ids,
                voice_view(voice_embedding),
                use_cache,
                *device,
            ) ==> r is Ok,
            r matches Ok(o) ==> dims_of(o) == seq![
                dims_of(*token_ids)[0],
                dims_of(*token_ids)[1],
                old(self).spec_config().latent_dim as int,
            ] && (old(self).forward_fits(
                dims_of(*token_ids),
                *token_ids,
                voice_view(voice_embedding),
                use_cache,
                *device,
            ) ==> cpu_float(o)),
            r is Ok && use_cache ==> final(self).spec_cache_len() == old(self).spec_cache_len()
                + dims_of(*token_ids)[1],
            r is Ok && use_cache && old(self).forward_fits(
                dims_of(*token_ids),
                *token_ids,
                voice_view(voice_embedding),
                use_cache,
                *device,
            ) ==> final(self).caches_ready(dims_of(*token_ids)[0]),
            !use_cache ==> final(self).spec_cache_len() == old(self).spec_cache_len(),
            !use_cache ==> forall|i: int|
                0 <= i < old(self).spec_config().num_layers
                    ==> #[trigger] final(self).spec_cache_at(i) == old(self).spec_cache_at(i),
    {
        let ghost fine = old(self).forward_fits(
            dims_of(*token_ids),
            *token_ids,
            voice_view(voice_embedding),
            use_cache,
            *device,
        );
        let ghost td = dims_of(*token_ids);
        let mut hidden = self.text_embedding.forward(token_ids)?;
        proof {
            assert(dims_of(hidden) =~= seq![td[0], td[1], self.config.hidden_size as int]);
        }

        // add the (broadcast-expanded) voice embedding to the hidden states
        if let Some(voice) = voice_embedding {
            let td_exec = tensor_dims(token_ids);
            let batch_size = td_exec[0];
            let seq_len = td_exec[1];
            if voice.voice_dim() != self.config.hidden_size {
                return Err(
                    PocketTTSError::InferenceFailed(
                        String::from_str("voice embedding width does not match the hidden size"),
                    ),
                );
            }
            let prompt_len = match voice.prompt_seq_len() {
                Ok(n) => n,
                Err(e) => {
                    return Err(e);
                },
            };
            if prompt_len != 1 && prompt_len != seq_len {
                return Err(
                    PocketTTSError::InferenceFailed(
                        String::from_str("voice prompt length does not match the chunk"),
                    ),
                );
            }
            let expanded = voice.expand_to_seq(batch_size, seq_len)?;
            proof {
                lemma_bcast_into(dims_of(hidden), dims_of(expanded));
            }
            hidden = tensor_broadcast_add(&hidden, &expanded)?;
        }

        // pass through the transformer layers, each with its own cache
        let ghost old_caches = self.kv_caches@;
        let ghost old_len = old(self).spec_cache_len();
        let ghost hd = (self.config.hidden_size / self.config.num_heads) as int;
        let n = self.layers.len();
        let mut i: usize = 0;
        while i < n
            invariant
                self.wf(),
                self.config == old(self).spec_config(),
                self.layers@ == old(self).layers@,
                self.rotary == old(self).rotary,
                self.text_embedding == old(self).text_embedding,
                self.final_norm == old(self).final_norm,
                self.latent_proj == old(self).latent_proj,
                n == self.layers@.len(),
                i <= n,
                old_caches == old(self).kv_caches@,
                old_len == old(self).spec_cache_len(),
                td == dims_of(*token_ids),
                hd == (self.config.hidden_size / self.config.num_heads) as int,
                fine == old(self).forward_fits(
                    td,
                    *token_ids,
                    voice_view(voice_embedding),
                    use_cache,
                    *device,
                ),
                self.kv_caches@.len() == old_caches.len(),
                n <= self.kv_caches@.len(),
                dims_of(hidden) == seq![td[0], td[1], self.config.hidden_size as int],
                fine ==> cpu_float(hidden),
                use_cache ==> forall|a: int|
                    0 <= a < i ==> (#[trigger] self.kv_caches@[a]).spec_len() == old_caches[
                        a
                    ].spec_len() + td[1],
                fine && use_cache ==> forall|a: int|
                    0 <= a < i ==> ({
                        let c = #[trigger] self.kv_caches@[a];
                        c.spec_cpu() && !c.spec_empty() && c.spec_batch() == td[0]
                            && c.spec_heads() == self.config.num_heads && c.spec_k_dim() == hd
                            && c.spec_v_dim() == hd
                    }),
                forall|a: int|
                    i <= a < self.kv_caches@.len() ==> #[trigger] self.kv_caches@[a]
                        == old_caches[a],
                !use_cache ==> self.kv_caches@ == old_caches,
            decreases n - i,
        {
            let mut cache = self.kv_caches[i].clone_cache();
            let ghost pre_caches = self.kv_caches@;
            proof {
                if fine {
                    vstd::arithmetic::div_mod::lemma_fundamental_div_mod(
                        self.config.hidden_size as int,
                        self.config.num_heads as int,
                    );
                    cache.lemma_len_nonneg();
                    let kv0: int = if use_cache {
                        cache.spec_len()
                    } else {
                        0
                    };
                    assert(kv0 + td[1] <= td[1] * (kv0 + td[1])) by (nonlinear_arith)
                        requires
                            td[1] >= 1,
                            kv0 >= 0,
                    ;
                    assert(self.layers@[i as int].fits(
                        dims_of(hidden),
                        hidden,
                        self.rotary,
                        cache,
                        use_cache,
                        *device,
                    ));
                }
            }
            let out = self.layers[i].forward(&hidden, &self.rotary, &mut cache, use_cache, device);
            match out {
                Ok(h) => {
                    hidden = h;
                },
                Err(e) => {
                    return Err(e);
                },
            }
            if use_cache {
                self.kv_caches[i] = cache;
                proof {
                    assert(self.kv_caches@ =~= pre_caches.update(i as int, cache));
                }
            }
            i = i + 1;
        }


        // final normalization and projection into latent space
        let normed = self.final_norm.forward(&hidden)?;
        let latents = self.latent_proj.forward(&normed)?;
        proof {
            assert(dims_of(latents) =~= seq![td[0], td[1], self.config.latent_dim as int]);
        }
        Ok(latents)
    }

    /// Reset every layer's cache for a new, non-continuation sequence.
    pub fn reset_cache(&mut self)
        requires
            old(self).wf(),
        ensures
            final(self).wf(),
            final(self).spec_config() == old(self).spec_config(),
            final(self).on_cpu() == old(self).on_cpu(),
            final(self).spec_cache_len() == 0,
            forall|i: int|
                0 <= i < final(self).spec_config().num_layers
                    ==> #[trigger] final(self).spec_cache_at(i) == 0,
            forall|b: int| final(self).caches_ready(b),
    {
        let n = self.kv_caches.len();
        let mut i: usize = 0;
        while i < n
            invariant
                old(self).wf(),
                i <= n,
                n == self.kv_caches@.len(),
                self.config == old(self).spec_config(),
                self.layers@ == old(self).layers@,
                self.rotary == old(self).rotary,
                self.text_embedding == old(self).text_embedding,
                self.final_norm == old(self).final_norm,
                self.latent_proj == old(self).latent_proj,
                self.kv_caches@.len() == old(self).kv_caches@.len(),
                forall|a: int|
                    0 <= a < i ==> (#[trigger] self.kv_caches@[a]).wf() && self.kv_caches@[
                        a
                    ].spec_len() == 0 && self.kv_caches@[a].spec_cpu() && self.kv_caches@[
                        a
                    ].spec_empty(),
                forall|a: int|
                    i <= a < self.kv_caches@.len() ==> #[trigger] self.kv_caches@[a] == old(
                        self,
                    ).kv_caches@[a],
            decreases n - i,
        {
            let ghost pre_caches = self.kv_caches@;
            let fresh = KVCache::new();
            self.kv_caches[i] = fresh;
            proof {
                assert(self.kv_caches@ =~= pre_caches.update(i as int, fresh));
            }
            i = i + 1;
        }
    }

    /// The accumulated length of layer `i`'s cache.
    pub closed spec fn spec_cache_at(self, i: int) -> int {
        self.kv_caches@[i].spec_len()
    }

    /// Current accumulated cache length: zero right after a reset, and the
    /// cumulative token count after cached forward passes.
    pub fn cache_seq_len(&self) -> (n: usize)
        requires
            self.wf(),
        ensures
            n == self.spec_cache_len(),
    {
        if self.kv_caches.len() > 0 {
            self.kv_caches[0].seq_len()
        } else {
            0
        }
    }

    /// The configuration the backbone was built with.
    pub fn config(&self) -> (r: &FlowLMConfig)
        ensures
            *r == self.spec_config(),
    {
        &self.config
    }
}

} // verus!
