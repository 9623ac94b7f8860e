//! Causal multi-head self-attention with an incremental key/value cache.
//!
//! One-shot and chunked generation see the same attention pattern: the cache
//! appends every chunk's keys and values, rotary encoding starts at the
//! cache's current length, and the causal mask admits key position `j` for
//! query position `i` exactly when `j <= i + (kv_len - q_len)`.

use vstd::prelude::*;
use vstd::string::StringExecFns;

use candle_core::Device;
use candle_core::Tensor;

use crate::error::PocketTTSError;
use crate::modules::rotary::RotaryEmbedding;
use crate::tensors::cpu_float;
use crate::tensors::cpu_store;
use crate::tensors::dims_of;
use crate::tensors::is_cpu;
use crate::tensors::indicator_tensor;
use crate::tensors::lemma_bcast_into;
use crate::tensors::scalar_tensor;
use crate::tensors::tensor_broadcast_add;
use crate::tensors::tensor_broadcast_div;
use crate::tensors::tensor_clone;
use crate::tensors::tensor_dims;
use crate::tensors::tensor_log;
use crate::tensors::tensor_matmul;
use crate::tensors::tensor_reshape3;
use crate::tensors::tensor_reshape4;
use crate::tensors::tensor_softmax_last;
use crate::tensors::tensor_sqrt;
use crate::tensors::tensor_transpose;
use crate::tensors::LinearLayer;
use crate::tensors::WeightStore;

verus! {

/// Does the causal mask admit key position `j` for query position `i`, in a
/// window of `q_len` queries against `kv_len` keys?
pub open spec fn mask_allows(q_len: int, kv_len: int, i: int, j: int) -> bool {
    j <= i + (kv_len - q_len)
}

/// The mask bits for a `q_len` by `kv_len` attention window, row-major:
/// exactly the admitted positions are set.  This rule is what makes chunked
/// generation see the same attention pattern as a single pass.
pub fn causal_mask_bits(q_len: usize, kv_len: usize) -> (r: Vec<bool>)
    requires
        q_len * kv_len <= usize::MAX,
    ensures
        r@.len() == q_len * kv_len,
        forall|i: int, j: int|
            0 <= i < q_len && 0 <= j < kv_len ==> r@[i * (kv_len as int) + j] == mask_allows(
                q_len as int,
                kv_len as int,
                i,
                j,
            ),
{
    let mut bits: Vec<bool> = Vec::new();
    let mut i: usize = 0;
    while i < q_len
        invariant
            i <= q_len,
            q_len * kv_len <= usize::MAX,
            bits@.len() == i * kv_len,
            forall|a: int, b: int|
                0 <= a < i && 0 <= b < kv_len ==> bits@[a * (kv_len as int) + b] == mask_allows(
                    q_len as int,
                    kv_len as int,
                    a,
                    b,
                ),
        decreases q_len - i,
    {
        proof {
            assert((i + 1) * kv_len == i * kv_len + kv_len) by (nonlinear_arith);
            assert((i + 1) * kv_len <= q_len * kv_len) by (nonlinear_arith)
                requires
                    i + 1 <= q_len,
                    0 <= kv_len,
            ;
        }
        let mut j: usize = 0;
        while j < kv_len
            invariant
                i < q_len,
                j <= kv_len,
                q_len * kv_len <= usize::MAX,
                i * kv_len + kv_len <= q_len * kv_len,
                bits@.len() == i * kv_len + j,
                forall|a: int, b: int|
                    0 <= a < i && 0 <= b < kv_len ==> bits@[a * (kv_len as int) + b] == mask_allows(
                        q_len as int,
                        kv_len as int,
                        a,
                        b,
                    ),
                forall|b: int|
                    0 <= b < j ==> bits@[i * (kv_len as int) + b] == mask_allows(
                        q_len as int,
                        kv_len as int,
                        i as int,
                        b,
                    ),
            decreases kv_len - j,
        {
            // admitted when j <= i + (kv_len - q_len), avoiding underflow
            let allowed = if kv_len >= q_len {
                j <= i + (kv_len - q_len)
            } else {
                j + (q_len - kv_len) <= i
            };
            bits.push(allowed);
            proof {
                assert forall|a: int, b: int|
                    0 <= a < i && 0 <= b < kv_len implies bits@[a * (kv_len as int) + b]
                    == mask_allows(q_len as int, kv_len as int, a, b) by {
                    assert(a * (kv_len as int) + b < i * (kv_len as int)) by (nonlinear_arith)
                        requires
                            0 <= a < i,
                            0 <= b < kv_len,
                    ;
                }
            }
            j = j + 1;
        }
        proof {
            assert forall|a: int, b: int|
                0 <= a < i + 1 && 0 <= b < kv_len implies bits@[a * (kv_len as int) + b]
                == mask_allows(q_len as int, kv_len as int, a, b) by {
                if a < i {
                    assert(a * (kv_len as int) + b < i * (kv_len as int)) by (nonlinear_arith)
                        requires
                            0 <= a < i,
                            0 <= b < kv_len,
                    ;
                }
            }
        }
        i = i + 1;
    }
    bits
}

/// The causal mask as a float tensor: zero where admitted, negative infinity
/// where not (the logarithm of the indicator), shaped [1, 1, q_len, kv_len].
pub(crate) fn causal_mask_tensor(q_len: usize, kv_len: usize, device: &Device) -> (r: Result<
    Tensor,
    PocketTTSError,
>)
    requires
        q_len * kv_len <= usize::MAX,
    ensures
        is_cpu(*device) ==> r is Ok,
        r matches Ok(m) ==> dims_of(m) == seq![1int, 1int, q_len as int, kv_len as int] && (is_cpu(
            *device,
        ) ==> cpu_float(m)),
{
    let bits = causal_mask_bits(q_len, kv_len);
    let indicator = indicator_tensor(&bits, q_len, kv_len, device)?;
    tensor_log(&indicator)
}

/// KV cache for efficient autoregressive generation: accumulated key and
/// value tensors of shape [batch, heads, len, head_dim], append-only within
/// a session.
pub struct KVCache {
    pub(crate) k_cache: Option<Tensor>,
    pub(crate) v_cache: Option<Tensor>,
    pub(crate) batch: usize,
    pub(crate) heads: usize,
    pub(crate) len: usize,
    pub(crate) k_dim: usize,
    pub(crate) v_dim: usize,
}

impl KVCache {
    /// Either empty, or holding matched key and value tensors whose third
    /// dimension is the accumulated sequence length.
    pub closed spec fn wf(self) -> bool {
        match (self.k_cache, self.v_cache) {
            (Some(k), Some(v)) => {
                &&& dims_of(k) == seq![
                    self.batch as int,
                    self.heads as int,
                    self.len as int,
                    self.k_dim as int,
                ]
                &&& dims_of(v) == seq![
                    self.batch as int,
                    self.heads as int,
                    self.len as int,
                    self.v_dim as int,
                ]
            },
            (None, None) => self.len == 0,
            _ => false,
        }
    }

    /// The accumulated sequence length.
    pub closed spec fn spec_len(self) -> int {
        self.len as int
    }

    /// The accumulated length is never negative.
    pub proof fn lemma_len_nonneg(self)
        ensures
            self.spec_len() >= 0,
    {
    }

    /// Is the cache empty (holding no tensors at all)?
    pub closed spec fn spec_empty(self) -> bool {
        self.k_cache is None
    }

    /// The batch extent of the cached tensors.
    pub closed spec fn spec_batch(self) -> int {
        self.batch as int
    }

    /// The head extent of the cached tensors.
    pub closed spec fn spec_heads(self) -> int {
        self.heads as int
    }

    /// The key-width extent of the cached keys.
    pub closed spec fn spec_k_dim(self) -> int {
        self.k_dim as int
    }

    /// The value-width extent of the cached values.
    pub closed spec fn spec_v_dim(self) -> int {
        self.v_dim as int
    }

    /// Are the cached tensors (when any) 32-bit floats on the processor?
    pub closed spec fn spec_cpu(self) -> bool {
        &&& (self.k_cache matches Some(k) ==> cpu_float(k))
        &&& (self.v_cache matches Some(v) ==> cpu_float(v))
    }

    /// A fresh, empty cache.
    pub fn new() -> (c: KVCache)
        ensures
            c.wf(),
            c.spec_len() == 0,
            c.spec_empty(),
            c.spec_cpu(),
    {
        KVCache { k_cache: None, v_cache: None, batch: 0, heads: 0, len: 0, k_dim: 0, v_dim: 0 }
    }

    /// The accumulated sequence length so far.
    pub fn seq_len(&self) -> (n: usize)
        ensures
            n == self.spec_len(),
    {
        self.len
    }

    /// Append this chunk's keys and values and hand back the accumulated
    /// tensors.  The cache grows by the chunk's sequence length; on failure
    /// it is left as it was.
    pub fn update(&mut self, k: Tensor, v: Tensor) -> (r: Result<(Tensor, Tensor), PocketTTSError>)
        requires
            old(self).wf(),
            dims_of(k).len() == 4,
            dims_of(v).len() == 4,
            dims_of(v)[0] == dims_of(k)[0],
            dims_of(v)[1] == dims_of(k)[1],
            dims_of(v)[2] == dims_of(k)[2],
        ensures
            ({
                &&& old(self).spec_cpu() && cpu_float(k) && cpu_float(v)
                &&& old(self).spec_len() + dims_of(k)[2] <= usize::MAX
                &&& (old(self).spec_empty() || (dims_of(k)[0] == old(self).spec_batch() && dims_of(
                    k,
                )[1] == old(self).spec_heads() && dims_of(k)[3] == old(self).spec_k_dim()
                    && dims_of(v)[3] == old(self).spec_v_dim()))
            }) ==> r is Ok,
            r matches Ok(p) ==> ({
                &&& final(self).wf()
                &&& final(self).spec_len() == old(self).spec_len() + dims_of(k)[2]
                &&& final(self).spec_batch() == dims_of(k)[0]
                &&& final(self).spec_heads() == dims_of(k)[1]
                &&& final(self).spec_k_dim() == dims_of(k)[3]
                &&& final(self).spec_v_dim() == dims_of(v)[3]
                &&& !final(self).spec_empty()
                &&& (old(self).spec_cpu() && cpu_float(k) && cpu_float(v)
                    ==> final(self).spec_cpu())
                &&& dims_of(p.0) == seq![
                    dims_of(k)[0],
                    dims_of(k)[1],
                    old(self).spec_len() + dims_of(k)[2],
                    dims_of(k)[3],
                ]
                &&& dims_of(p.1) == seq![
                    dims_of(k)[0],
                    dims_of(k)[1],
                    old(self).spec_len() + dims_of(k)[2],
                    dims_of(v)[3],
                ]
                &&& (old(self).spec_cpu() && cpu_float(k) && cpu_float(v) ==> cpu_float(p.0)
                    && cpu_float(p.1))
            }),
            r is Err ==> *final(self) == *old(self),
    {
        let kd = tensor_dims(&k);
        let new_len = kd[2];
        match (&self.k_cache, &self.v_cache) {
            (Some(k_cache), Some(v_cache)) => {
                let k_new = crate::tensors::tensor_cat2(k_cache, &k, 2)?;
                let v_new = crate::tensors::tensor_cat2(v_cache, &v, 2)?;
                if self.len > usize::MAX - new_len {
                    return Err(
                        PocketTTSError::InferenceFailed(
                            String::from_str("cache length overflow"),
                        ),
                    );
                }
                self.len = self.len + new_len;
                self.k_cache = Some(tensor_clone(&k_new));
                self.v_cache = Some(tensor_clone(&v_new));
                proof {
                    assert(old(self).k_cache matches Some(kc) && dims_of(kc)[0] == dims_of(k)[0]
                        && dims_of(kc)[1] == dims_of(k)[1] && dims_of(kc)[3] == dims_of(k)[3]);
                    assert(old(self).v_cache matches Some(vc) && dims_of(vc)[3] == dims_of(v)[3]);
                    assert(dims_of(k_new) =~= seq![
                        dims_of(k)[0],
                        dims_of(k)[1],
                        old(self).spec_len() + dims_of(k)[2],
                        dims_of(k)[3],
                    ]);
                    assert(dims_of(v_new) =~= seq![
                        dims_of(k)[0],
                        dims_of(k)[1],
                        old(self).spec_len() + dims_of(k)[2],
                        dims_of(v)[3],
                    ]);
                }
                Ok((k_new, v_new))
            },
            _ => {
                let kd0 = kd[0];
                let kd1 = kd[1];
                let kd3 = kd[3];
                let vd = tensor_dims(&v);
                let vd3 = vd[3];
                self.k_cache = Some(tensor_clone(&k));
                self.v_cache = Some(tensor_clone(&v));
                self.batch = kd0;
                self.heads = kd1;
                self.len = new_len;
                self.k_dim = kd3;
                self.v_dim = vd3;
                proof {
                    assert(dims_of(k) =~= seq![
                        dims_of(k)[0],
                        dims_of(k)[1],
                        old(self).spec_len() + dims_of(k)[2],
                        dims_of(k)[3],
                    ]);
                    assert(dims_of(v) =~= seq![
                        dims_of(k)[0],
                        dims_of(k)[1],
                        old(self).spec_len() + dims_of(k)[2],
                        dims_of(v)[3],
                    ]);
                }
                Ok((k, v))
            },
        }
    }

    /// A field-for-field copy of the cache (tensors are shared handles).
    pub fn clone_cache(&self) -> (c: KVCache)
        ensures
            c == *self,
    {
        KVCache {
            k_cache: match &self.k_cache {
                Some(t) => Some(tensor_clone(t)),
                None => None,
            },
            v_cache: match &self.v_cache {
                Some(t) => Some(tensor_clone(t)),
                None => None,
            },
            batch: self.batch,
            heads: self.heads,
            len: self.len,
            k_dim: self.k_dim,
            v_dim: self.v_dim,
        }
    }

    /// Reset the cache to empty.
    pub fn clear(&mut self)
        ensures
            final(self).wf(),
            final(self).spec_len() == 0,
            final(self).spec_empty(),
            final(self).spec_cpu(),
    {
        self.k_cache = None;
        self.v_cache = None;
        self.batch = 0;
        self.heads = 0;
        self.len = 0;
        self.k_dim = 0;
        self.v_dim = 0;
    }
}

impl Default for KVCache {
    /// A fresh, empty cache.
    fn default() -> (c: KVCache)
        ensures
            c.wf(),
            c.spec_len() == 0,
    {
        KVCache::new()
    }
}

/// The view behind an optional borrowed rotary table.
pub open spec fn rotary_view(r: Option<&RotaryEmbedding>) -> Option<RotaryEmbedding> {
    match r {
        Some(rope) => Some(*rope),
        None => None,
    }
}

/// Multi-head attention with optional rotary encoding, an optional
/// incremental cache, and an optional causal mask.
pub struct MultiHeadAttention {
    pub(crate) q_proj: LinearLayer,
    pub(crate) k_proj: LinearLayer,
    pub(crate) v_proj: LinearLayer,
    pub(crate) o_proj: LinearLayer,
    pub(crate) hidden_size: usize,
    pub(crate) num_heads: usize,
    pub(crate) head_dim: usize,
}

impl MultiHeadAttention {
    /// All four projections map the hidden width to itself, and the head
    /// geometry divides it.
    pub closed spec fn wf(self) -> bool {
        &&& self.q_proj.in_dim == self.hidden_size && self.q_proj.out_dim == self.hidden_size
        &&& self.k_proj.in_dim == self.hidden_size && self.k_proj.out_dim == self.hidden_size
        &&& self.v_proj.in_dim == self.hidden_size && self.v_proj.out_dim == self.hidden_size
        &&& self.o_proj.in_dim == self.hidden_size && self.o_proj.out_dim == self.hidden_size
        &&& self.num_heads >= 1
        &&& self.head_dim == self.hidden_size / self.num_heads
        &&& 1 <= self.hidden_size <= 0xffff_ffff
    }

    /// The hidden width the block maps to and from.
    pub closed spec fn spec_hidden(self) -> int {
        self.hidden_size as int
    }

    /// The number of attention heads.
    pub closed spec fn spec_num_heads(self) -> int {
        self.num_heads as int
    }

    /// The width of one head.
    pub closed spec fn spec_head_dim(self) -> int {
        self.head_dim as int
    }

    /// Are the four projections 32-bit floats on the processor?
    pub closed spec fn on_cpu(self) -> bool {
        self.q_proj.cpu && self.k_proj.cpu && self.v_proj.cpu && self.o_proj.cpu
    }

    /// When a forward pass is owed success: a processor-backed block and
    /// input, a non-empty chunk of the block's hidden width, heads that tile
    /// it exactly, a rotary table (when given) that matches the head width
    /// evenly and has room for the window, a compatible cache (when used),
    /// and an attention window that fits the address space.
    pub open spec fn forward_fits(
        self,
        xd: Seq<int>,
        x: Tensor,
        rope: Option<RotaryEmbedding>,
        cache: KVCache,
        use_cache: bool,
        causal: bool,
        device: Device,
    ) -> bool {
        let b = xd[0];
        let s = xd[1];
        let kv0: int = if use_cache {
            cache.spec_len()
        } else {
            0
        };
        &&& self.on_cpu()
        &&& cpu_float(x)
        &&& is_cpu(device)
        &&& xd[2] == self.spec_hidden()
        &&& s >= 1
        &&& self.spec_num_heads() * self.spec_head_dim() == self.spec_hidden()
        &&& (rope matches Some(rp) ==> rp.spec_cpu() && rp.spec_dim() == self.spec_head_dim()
            && kv0 + s <= rp.spec_max_seq_len() && self.spec_head_dim() % 2 == 0)
        &&& (use_cache ==> cache.spec_cpu() && cache.spec_len() + s <= usize::MAX && (
        cache.spec_empty() || (cache.spec_batch() == b && cache.spec_heads()
            == self.spec_num_heads() && cache.spec_k_dim() == self.spec_head_dim()
            && cache.spec_v_dim() == self.spec_head_dim())))
        &&& (causal ==> s * (kv0 + s) <= usize::MAX)
    }

    /// Draw the four projections from the store.
    pub fn new(hidden_size: usize, num_heads: usize, ws: &WeightStore) -> (r: Result<
        MultiHeadAttention,
        PocketTTSError,
    >)
        requires
            num_heads >= 1,
            1 <= hidden_size <= 0xffff_ffff,
        ensures
            r matches Ok(a) ==> a.wf() && a.spec_hidden() == hidden_size && a.spec_num_heads()
                == num_heads && a.spec_head_dim() == (hidden_size / num_heads) as int && a.on_cpu()
                == crate::tensors::cpu_store(*ws),
            r matches Err(e) ==> e is ModelLoadFailed,
    {
        let head_dim = hidden_size / num_heads;
        let q_proj = LinearLayer::new(&ws.sub("q_proj"), hidden_size, hidden_size)?;
        let k_proj = LinearLayer::new(&ws.sub("k_proj"), hidden_size, hidden_size)?;
        let v_proj = LinearLayer::new(&ws.sub("v_proj"), hidden_size, hidden_size)?;
        let o_proj = LinearLayer::new(&ws.sub("o_proj"), hidden_size, hidden_size)?;
        Ok(MultiHeadAttention { q_proj, k_proj, v_proj, o_proj, hidden_size, num_heads, head_dim })
    }

    /// Scaled dot-product attention over the chunk `x` of shape
    /// [batch, seq, hidden].  With `use_cache` the chunk's keys and values
    /// are appended to the cache and attention runs over the accumulated
    /// history, so the cache grows by exactly the chunk's length; without it
    /// the cache is left untouched.  Rotary encoding, when present, starts at
    /// the cache's current length.
    pub fn forward(
        &self,
        x: &Tensor,
        rotary: Option<&RotaryEmbedding>,
        cache: &mut KVCache,
        use_cache: bool,
        causal_mask: bool,
        device: &Device,
    ) -> (r: Result<Tensor, PocketTTSError>)
        requires
            self.wf(),
            old(cache).wf(),
            dims_of(*x).len() == 3,
            rotary matches Some(rope) ==> rope.wf(),
        ensures
            self.forward_fits(dims_of(*x), *x, rotary_view(rotary), *old(cache), use_cache, causal_mask, *device)
                ==> r is Ok,
            r matches Ok(o) ==> dims_of(o) == seq![
                dims_of(*x)[0],
                dims_of(*x)[1],
                self.spec_hidden(),
            ] && (self.forward_fits(
                dims_of(*x),
                *x,
                rotary_view(rotary),
                *old(cache),
                use_cache,
                causal_mask,
                *device,
            ) ==> cpu_float(o)),
            r is Ok && use_cache ==> final(cache).wf() && final(cache).spec_len() == old(
                cache,
            ).spec_len() + dims_of(*x)[1],
            r is Ok && use_cache && self.forward_fits(
                dims_of(*x),
                *x,
                rotary_view(rotary),
                *old(cache),
                use_cache,
                causal_mask,
                *device,
            ) ==> final(cache).spec_cpu() && !final(cache).spec_empty()
                && final(cache).spec_batch() == dims_of(*x)[0]
                && final(cache).spec_heads() == self.spec_num_heads()
                && final(cache).spec_k_dim() == self.spec_head_dim()
                && final(cache).spec_v_dim() == self.spec_head_dim(),
            !use_cache ==> *final(cache) == *old(cache),
            final(cache).wf(),
    {
        let ghost fine = self.forward_fits(
            dims_of(*x),
            *x,
            rotary_view(rotary),
            *old(cache),
            use_cache,
            causal_mask,
            *device,
        );
        let xd = tensor_dims(x);
        let batch_size = xd[0];
        let seq_len = xd[1];
        if seq_len == 0 {
            return Err(
                PocketTTSError::InferenceFailed(String::from_str("empty attention window")),
            );
        }

        // project to queries, keys and values
        let q = self.q_proj.forward(x)?;
        let k = self.k_proj.forward(x)?;
        let v = self.v_proj.forward(x)?;

        proof {
            if fine {
                assert(dims_of(q) =~= seq![
                    dims_of(*x)[0],
                    dims_of(*x)[1],
                    self.spec_hidden(),
                ]);
                assert(dims_of(k) =~= dims_of(q));
                assert(dims_of(v) =~= dims_of(q));
                crate::tensors::lemma_elem_count3(
                    dims_of(*x)[0],
                    dims_of(*x)[1],
                    self.spec_hidden(),
                );
                crate::tensors::lemma_elem_count4(
                    dims_of(*x)[0],
                    dims_of(*x)[1],
                    self.spec_num_heads(),
                    self.spec_head_dim(),
                );
                assert(dims_of(*x)[0] * dims_of(*x)[1] * self.spec_num_heads()
                    * self.spec_head_dim() == dims_of(*x)[0] * dims_of(*x)[1]
                    * self.spec_hidden()) by (nonlinear_arith)
                    requires
                        self.spec_num_heads() * self.spec_head_dim() == self.spec_hidden(),
                ;
            }
        }

        // split the hidden width into heads: [batch, seq, heads, head_dim]
        let q4 = tensor_reshape4(&q, batch_size, seq_len, self.num_heads, self.head_dim)?;
        let k4 = tensor_reshape4(&k, batch_size, seq_len, self.num_heads, self.head_dim)?;
        let v4 = tensor_reshape4(&v, batch_size, seq_len, self.num_heads, self.head_dim)?;

        // rotate queries and keys by their absolute positions
        let offset = if use_cache {
            cache.seq_len()
        } else {
            0
        };
        proof {
            if fine {
                assert(2 * (self.spec_head_dim() / 2) == self.spec_head_dim() || !(
                rotary_view(rotary) is Some));
            }
        }
        let (q4, k4) = match rotary {
            Some(rope) => rope.forward(&q4, &k4, offset)?,
            None => (q4, k4),
        };

        // head-major layout: [batch, heads, seq, head_dim]
        let q_heads = tensor_transpose(&q4, 1, 2)?;
        let k_heads = tensor_transpose(&k4, 1, 2)?;
        let v_heads = tensor_transpose(&v4, 1, 2)?;

        // accumulate this chunk in the cache, or stay stateless
        let (k_all, v_all) = if use_cache {
            cache.update(k_heads, v_heads)?
        } else {
            (k_heads, v_heads)
        };

        // attention scores, scaled by the square root of the head width
        let k_t = tensor_transpose(&k_all, 2, 3)?;
        let scores = tensor_matmul(&q_heads, &k_t)?;
        let head_dim_t = scalar_tensor(self.head_dim as u32, device)?;
        let denom = tensor_sqrt(&head_dim_t)?;
        proof {
            lemma_bcast_into(dims_of(scores), seq![1int]);
        }
        let scores = tensor_broadcast_div(&scores, &denom)?;

        // admit only causal positions
        let ghost kv_ghost = dims_of(k_all)[2];
        let scores = if causal_mask {
            let sd = tensor_dims(&scores);
            let kv_len = sd[3];
            if seq_len > 0 && kv_len > usize::MAX / seq_len {
                proof {
                    if fine {
                        assert(dims_of(scores)[3] == (if use_cache {
                            old(cache).spec_len()
                        } else {
                            0int
                        }) + dims_of(*x)[1]);
                        assert(seq_len == dims_of(*x)[1] && kv_len as int == dims_of(scores)[3]);
                        assert(seq_len * kv_len <= usize::MAX);
                        vstd::arithmetic::div_mod::lemma_fundamental_div_mod(
                            usize::MAX as int,
                            seq_len as int,
                        );
                        vstd::arithmetic::div_mod::lemma_mod_bound(
                            usize::MAX as int,
                            seq_len as int,
                        );
                        assert(kv_len * seq_len >= (usize::MAX as int / seq_len as int + 1)
                            * seq_len) by (nonlinear_arith)
                            requires
                                kv_len >= usize::MAX as int / seq_len as int + 1,
                                seq_len >= 1,
                        ;
                        assert((usize::MAX as int / seq_len as int + 1) * seq_len == seq_len * (
                        usize::MAX as int / seq_len as int) + seq_len) by (nonlinear_arith);
                        assert(seq_len * kv_len == kv_len * seq_len) by (nonlinear_arith);
                        assert(false);
                    }
                }
                return Err(
                    PocketTTSError::InferenceFailed(
                        String::from_str("attention window overflow"),
                    ),
                );
            }
            proof {
                vstd::arithmetic::div_mod::lemma_fundamental_div_mod(
                    usize::MAX as int,
                    seq_len as int,
                );
                vstd::arithmetic::div_mod::lemma_mod_bound(usize::MAX as int, seq_len as int);
                assert(seq_len * kv_len <= usize::MAX) by (nonlinear_arith)
                    requires
                        kv_len <= usize::MAX as int / seq_len as int,
                        1 <= seq_len,
                        0 <= kv_len,
                        usize::MAX as int == seq_len as int * (usize::MAX as int
                            / seq_len as int) + usize::MAX as int % seq_len as int,
                        usize::MAX as int % seq_len as int >= 0,
                ;
            }
            let mask = causal_mask_tensor(seq_len, kv_len, device)?;
            proof {
                lemma_bcast_into(dims_of(scores), dims_of(mask));
            }
            tensor_broadcast_add(&scores, &mask)?
        } else {
            scores
        };

        // softmax along the key axis, then the weighted sum of values
        let weights = tensor_softmax_last(&scores)?;
        let context = tensor_matmul(&weights, &v_all)?;

        // back to [batch, seq, hidden] and through the output projection
        let context = tensor_transpose(&context, 1, 2)?;
        proof {
            assert(self.num_heads * self.head_dim <= self.hidden_size) by (nonlinear_arith)
                requires
                    self.num_heads >= 1,
                    self.head_dim == self.hidden_size / self.num_heads,
                    self.hidden_size >= 0,
            ;
        }
        proof {
            if fine {
                assert(dims_of(context) =~= seq![
                    dims_of(*x)[0],
                    dims_of(*x)[1],
                    self.spec_num_heads(),
                    self.spec_head_dim(),
                ]);
                crate::tensors::lemma_elem_count4(
                    dims_of(*x)[0],
                    dims_of(*x)[1],
                    self.spec_num_heads(),
                    self.spec_head_dim(),
                );
                crate::tensors::lemma_elem_count3(
                    dims_of(*x)[0],
                    dims_of(*x)[1],
                    self.spec_num_heads() * self.spec_head_dim(),
                );
                assert(dims_of(*x)[0] * dims_of(*x)[1] * self.spec_num_heads()
                    * self.spec_head_dim() == dims_of(*x)[0] * dims_of(*x)[1] * (
                self.spec_num_heads() * self.spec_head_dim())) by (nonlinear_arith);
            }
        }
        let merged = tensor_reshape3(&context, batch_size, seq_len, self.num_heads * self.head_dim)?;
        let out = self.o_proj.forward(&merged)?;
        proof {
            assert(dims_of(out) =~= seq![dims_of(*x)[0], dims_of(*x)[1], self.spec_hidden()]);
        }
        Ok(out)
    }
}

} // verus!
