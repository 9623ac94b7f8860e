//! Embedding modules for text and voice.

use vstd::prelude::*;
use vstd::string::StringExecFns;

use candle_core::Device;
use candle_core::Tensor;
use candle_nn::Module;

use crate::error::PocketTTSError;
use crate::tensors::cpu_float;
use crate::tensors::cpu_ids;
use crate::tensors::cpu_store;
use crate::tensors::dims_of;
use crate::tensors::ids_of;
use crate::tensors::tensor_dims;
use crate::tensors::tensor_repeat_batch;
use crate::tensors::tensor_squeeze;
use crate::tensors::tensor_unsqueeze;
use crate::tensors::WeightStore;

verus! {

/// Text token embeddings.
pub struct TextEmbedding {
    pub(crate) inner: candle_nn::Embedding,
    pub(crate) vocab_size: usize,
    pub(crate) hidden_size: usize,
    pub(crate) cpu: bool,
}

impl TextEmbedding {
    /// The hidden width a token id turns into.
    pub closed spec fn spec_hidden(self) -> int {
        self.hidden_size as int
    }

    /// The number of ids the table maps.
    pub closed spec fn spec_vocab_size(self) -> int {
        self.vocab_size as int
    }

    /// Relies on candle_nn's embedding: a lookup table from the store,
    /// mapping each of `vocab_size` ids to a `hidden_size` vector.
    #[verifier::external_body]
    pub fn new(vocab_size: usize, hidden_size: usize, ws: &WeightStore) -> (r: Result<
        TextEmbedding,
        PocketTTSError,
    >)
        ensures
            r matches Ok(e) ==> e.spec_hidden() == hidden_size && e.spec_vocab_size() == vocab_size
                && e.spec_cpu() == cpu_store(*ws),
            r matches Err(e) ==> e is ModelLoadFailed,
    {
        let cpu = ws.vb.device().is_cpu() && ws.vb.dtype() == candle_core::DType::F32;
        match candle_nn::embedding(vocab_size, hidden_size, ws.vb.clone()) {
            Ok(inner) => Ok(TextEmbedding { inner, vocab_size, hidden_size, cpu }),
            Err(e) => Err(PocketTTSError::ModelLoadFailed(e.to_string())),
        }
    }

    /// Relies on candle_nn's Embedding::forward: each id becomes its vector,
    /// so the shape gains one trailing hidden dimension; a processor id
    /// tensor whose ids all lie below the table size goes through, and its
    /// vectors share the table's backing.
    #[verifier::external_body]
    pub fn forward(&self, token_ids: &Tensor) -> (r: Result<Tensor, PocketTTSError>)
        ensures
            (self.spec_cpu() && cpu_ids(*token_ids) && (forall|i: int|
                0 <= i < ids_of(*token_ids).len() ==> (#[trigger] ids_of(*token_ids)[i])
                    < self.spec_vocab_size())) ==> r is Ok,
            r matches Ok(o) ==> dims_of(o) == dims_of(*token_ids).push(self.spec_hidden()) && (
            cpu_ids(*token_ids) && self.spec_cpu() ==> cpu_float(o)),
    {
        self.inner.forward(token_ids).map_err(|e| PocketTTSError::InferenceFailed(e.to_string()))
    }

    /// Is the lookup table made of 32-bit floats on the processor?
    pub closed spec fn spec_cpu(self) -> bool {
        self.cpu
    }

    /// The hidden width of the embedding.
    pub fn hidden_size(&self) -> (n: usize)
        ensures
            n == self.spec_hidden(),
    {
        self.hidden_size
    }
}

/// What deserializing a safetensors buffer yields: nothing when the buffer
/// is malformed or holds an element type candle cannot load, else the shape
/// of each named array.  The result depends on the bytes alone.
pub uninterp spec fn parsed_arrays(data: Seq<u8>) -> Option<Map<Seq<char>, Seq<int>>>;

/// The array a voice file provides: the first of the conventional names
/// present in the parsed table.
pub open spec fn chosen_voice_shape(m: Map<Seq<char>, Seq<int>>) -> Option<Seq<int>> {
    if m.contains_key("audio_prompt"@) {
        Some(m["audio_prompt"@])
    } else if m.contains_key("embedding"@) {
        Some(m["embedding"@])
    } else if m.contains_key("voice"@) {
        Some(m["voice"@])
    } else if m.contains_key("speaker"@) {
        Some(m["speaker"@])
    } else {
        None
    }
}

/// Relies on candle_core::safetensors::load_buffer: deserializes a
/// safetensors byte buffer (named `parsed_arrays`) and takes out the named
/// array, when present.
#[verifier::external_body]
fn load_named_array(data: &[u8], name: &str, dev: &Device) -> (r: Result<
    Option<Tensor>,
    PocketTTSError,
>)
    ensures
        parsed_arrays(data@) is Some ==> r is Ok,
        r is Ok ==> parsed_arrays(data@) is Some,
        r matches Err(e) ==> e is ModelLoadFailed,
        r matches Ok(o) ==> ({
            let m = parsed_arrays(data@)->0;
            &&& (o is Some <==> m.contains_key(name@))
            &&& (o matches Some(found) ==> dims_of(found) == m[name@])
        }),
{
    match candle_core::safetensors::load_buffer(data, dev) {
        Ok(mut arrays) => Ok(arrays.remove(name)),
        Err(e) => Err(PocketTTSError::ModelLoadFailed(e.to_string())),
    }
}

/// Voice embedding (speaker identity): a [prompt_seq, dim] array of
/// conditioning vectors, never mutated after load.
pub struct VoiceEmbedding {
    pub(crate) embedding: Tensor,
    pub(crate) voice_dim: usize,
    pub(crate) prompt_len: usize,
}

impl VoiceEmbedding {
    /// The held array is [prompt_len, voice_dim].
    pub closed spec fn wf(self) -> bool {
        dims_of(self.embedding) == seq![self.prompt_len as int, self.voice_dim as int]
    }

    /// The width of one conditioning vector.
    pub closed spec fn spec_voice_dim(self) -> int {
        self.voice_dim as int
    }

    /// The number of conditioning vectors.
    pub closed spec fn spec_prompt_len(self) -> int {
        self.prompt_len as int
    }

    /// The held conditioning array.
    pub closed spec fn spec_embedding(self) -> Tensor {
        self.embedding
    }

    /// Is the conditioning array made of 32-bit floats on the processor?
    pub closed spec fn spec_cpu(self) -> bool {
        cpu_float(self.embedding)
    }

    /// Load a voice embedding from serialized bytes: loading succeeds exactly
    /// when the bytes parse and one of the conventional array names is
    /// present (the first found wins) with shape [prompt_seq, dim], or
    /// [1, prompt_seq, dim], whose leading batch dimension of one is squeezed
    /// away.
    pub fn from_bytes(data: &[u8], device: &Device) -> (r: Result<VoiceEmbedding, PocketTTSError>)
        ensures
            ({
                let p = parsed_arrays(data@);
                (p matches Some(m) && (chosen_voice_shape(m) matches Some(s) && (s.len() == 2 || (
                s.len() == 3 && s[0] == 1)))) <==> r is Ok
            }),
            r matches Ok(v) ==> v.wf() && ({
                let s = chosen_voice_shape(parsed_arrays(data@)->0)->0;
                if s.len() == 2 {
                    v.spec_prompt_len() == s[0] && v.spec_voice_dim() == s[1]
                } else {
                    v.spec_prompt_len() == s[1] && v.spec_voice_dim() == s[2]
                }
            }),
            r matches Err(e) ==> e is ModelLoadFailed,
    {
        let found = load_named_array(data, "audio_prompt", device)?;
        let found = match found {
            Some(t) => Some(t),
            None => load_named_array(data, "embedding", device)?,
        };
        let found = match found {
            Some(t) => Some(t),
            None => load_named_array(data, "voice", device)?,
        };
        let found = match found {
            Some(t) => Some(t),
            None => load_named_array(data, "speaker", device)?,
        };
        let embedding = match found {
            Some(t) => t,
            None => {
                return Err(
                    PocketTTSError::ModelLoadFailed(
                        String::from_str("Voice embedding not found"),
                    ),
                );
            },
        };
        let dims = tensor_dims(&embedding);
        if dims.len() == 3 && dims[0] == 1 {
            let squeezed = match tensor_squeeze(&embedding, 0) {
                Ok(t) => t,
                Err(_) => {
                    return Err(
                        PocketTTSError::ModelLoadFailed(
                            String::from_str("Voice embedding has an unsupported shape"),
                        ),
                    );
                },
            };
            let sd = tensor_dims(&squeezed);
            let p0 = sd[0];
            let p1 = sd[1];
            proof {
                assert(dims_of(squeezed) =~= seq![p0 as int, p1 as int]);
            }
            Ok(VoiceEmbedding { embedding: squeezed, voice_dim: p1, prompt_len: p0 })
        } else if dims.len() == 2 {
            let d0 = dims[0];
            let d1 = dims[1];
            proof {
                assert(dims_of(embedding) =~= seq![d0 as int, d1 as int]);
            }
            Ok(VoiceEmbedding { embedding, voice_dim: d1, prompt_len: d0 })
        } else {
            Err(
                PocketTTSError::ModelLoadFailed(
                    String::from_str("Voice embedding has an unsupported shape"),
                ),
            )
        }
    }

    /// Wrap a raw conditioning array of shape [prompt_seq, dim] or [dim]; a
    /// lone vector becomes a one-vector prompt.  Exactly those two ranks are
    /// accepted.
    pub fn from_tensor(embedding: Tensor) -> (r: Result<VoiceEmbedding, PocketTTSError>)
        ensures
            (dims_of(embedding).len() == 1 || dims_of(embedding).len() == 2) <==> r is Ok,
            r matches Ok(v) ==> v.wf() && v.spec_voice_dim() == dims_of(embedding)[dims_of(
                embedding,
            ).len() - 1],
            r matches Err(e) ==> e is ModelLoadFailed,
    {
        let dims = tensor_dims(&embedding);
        if dims.len() == 1 {
            let d = dims[0];
            let widened = match tensor_unsqueeze(&embedding, 0) {
                Ok(t) => t,
                Err(_) => {
                    return Err(
                        PocketTTSError::ModelLoadFailed(
                            String::from_str("Voice embedding has an unsupported shape"),
                        ),
                    );
                },
            };
            proof {
                assert(dims_of(widened) =~= seq![1int, d as int]);
            }
            Ok(VoiceEmbedding { embedding: widened, voice_dim: d, prompt_len: 1 })
        } else if dims.len() == 2 {
            let d0 = dims[0];
            let d1 = dims[1];
            proof {
                assert(dims_of(embedding) =~= seq![d0 as int, d1 as int]);
            }
            Ok(VoiceEmbedding { embedding, voice_dim: d1, prompt_len: d0 })
        } else {
            Err(
                PocketTTSError::ModelLoadFailed(
                    String::from_str("Voice embedding has an unsupported shape"),
                ),
            )
        }
    }

    /// Borrow the conditioning array.
    pub fn embedding(&self) -> (r: &Tensor)
        ensures
            *r == self.spec_embedding(),
    {
        &self.embedding
    }

    /// The width of one conditioning vector.
    pub fn voice_dim(&self) -> (n: usize)
        ensures
            n == self.spec_voice_dim(),
    {
        self.voice_dim
    }

    /// The number of conditioning vectors (audio prompt frames).
    pub fn prompt_seq_len(&self) -> (r: Result<usize, PocketTTSError>)
        ensures
            r matches Ok(n) ==> n == self.spec_prompt_len(),
            r is Ok,
    {
        Ok(self.prompt_len)
    }

    /// Expand the embedding with a batch dimension:
    /// [prompt_seq, dim] becomes [batch, prompt_seq, dim].
    pub fn expand_to_seq(&self, batch_size: usize, _seq_len: usize) -> (r: Result<
        Tensor,
        PocketTTSError,
    >)
        requires
            self.wf(),
        ensures
            (batch_size <= 1 || self.spec_cpu()) ==> r is Ok,
            r matches Ok(o) ==> dims_of(o) == seq![
                (if batch_size <= 1 {
                    1int
                } else {
                    batch_size as int
                }),
                self.spec_prompt_len(),
                self.spec_voice_dim(),
            ] && (self.spec_cpu() ==> cpu_float(o)),
    {
        let expanded = tensor_unsqueeze(&self.embedding, 0)?;
        proof {
            assert(dims_of(expanded) =~= seq![
                1int,
                self.spec_prompt_len(),
                self.spec_voice_dim(),
            ]);
        }
        if batch_size > 1 {
            let tiled = tensor_repeat_batch(&expanded, batch_size)?;
            proof {
                assert(dims_of(tiled) =~= seq![
                    batch_size as int,
                    self.spec_prompt_len(),
                    self.spec_voice_dim(),
                ]);
            }
            Ok(tiled)
        } else {
            Ok(expanded)
        }
    }
}

/// Voice embedding bank: the built-in speaker embeddings, indexed by voice.
pub struct VoiceBank {
    pub(crate) voices: Vec<VoiceEmbedding>,
    pub(crate) voice_dim: usize,
}

impl VoiceBank {
    /// Every held voice is well-formed.
    pub closed spec fn wf(self) -> bool {
        forall|i: int| 0 <= i < self.voices@.len() ==> (#[trigger] self.voices@[i]).wf()
    }

    /// The held voices.
    pub closed spec fn spec_voices(self) -> Seq<VoiceEmbedding> {
        self.voices@
    }

    /// An empty bank expecting vectors of the given width.
    pub fn new(voice_dim: usize) -> (b: VoiceBank)
        ensures
            b.wf(),
            b.spec_voices().len() == 0,
            b.spec_voice_dim() == voice_dim,
    {
        VoiceBank { voices: Vec::new(), voice_dim }
    }

    /// The width the bank last saw.
    pub closed spec fn spec_voice_dim(self) -> int {
        self.voice_dim as int
    }

    /// Append one loaded voice; the bank's width follows it.
    pub fn add_voice(&mut self, voice: VoiceEmbedding)
        requires
            old(self).wf(),
            voice.wf(),
        ensures
            final(self).wf(),
            final(self).spec_voices() == old(self).spec_voices().push(voice),
            final(self).spec_voice_dim() == voice.spec_voice_dim(),
    {
        self.voice_dim = voice.voice_dim();
        self.voices.push(voice);
    }

    /// Get a voice by index: present exactly for indices below the count.
    pub fn get(&self, index: usize) -> (r: Option<&VoiceEmbedding>)
        requires
            self.wf(),
        ensures
            r is Some <==> index < self.spec_voices().len(),
            r matches Some(v) ==> *v == self.spec_voices()[index as int] && v.wf(),
    {
        if index < self.voices.len() {
            Some(&self.voices[index])
        } else {
            None
        }
    }

    /// Number of loaded voices.
    pub fn len(&self) -> (n: usize)
        ensures
            n == self.spec_voices().len(),
    {
        self.voices.len()
    }

    /// Whether no voice is loaded.
    pub fn is_empty(&self) -> (b: bool)
        ensures
            b <==> self.spec_voices().len() == 0,
    {
        self.voices.is_empty()
    }

    /// The width the bank last saw.
    pub fn voice_dim(&self) -> (n: usize)
        ensures
            n == self.spec_voice_dim(),
    {
        self.voice_dim
    }
}

} // verus!
