//! Rotary position embeddings.
//!
//! Position is encoded by rotating query and key vectors: cosine and sine
//! tables of shape [max_seq_len, head_dim/2] are precomputed from inverse
//! frequencies `1/base^(2i/dim)`, and a forward pass rotates the two halves
//! of each head vector by the rows starting at a caller-given offset.

use vstd::prelude::*;
use vstd::string::StringExecFns;

use candle_core::Device;
use candle_core::Tensor;

use crate::error::PocketTTSError;
use crate::tensors::arange_tensor;
use crate::tensors::cpu_float;
use crate::tensors::dims_of;
use crate::tensors::is_cpu;
use crate::tensors::lemma_bcast_into;
use crate::tensors::scalar_tensor;
use crate::tensors::tensor_broadcast_mul;
use crate::tensors::tensor_broadcast_sub;
use crate::tensors::tensor_broadcast_add;
use crate::tensors::tensor_broadcast_div;
use crate::tensors::tensor_cat2;
use crate::tensors::tensor_cos;
use crate::tensors::tensor_dims;
use crate::tensors::tensor_exp;
use crate::tensors::tensor_log;
use crate::tensors::tensor_matmul;
use crate::tensors::tensor_narrow;
use crate::tensors::tensor_neg;
use crate::tensors::tensor_sin;
use crate::tensors::tensor_unsqueeze;

verus! {

/// Rotary position embedding tables.
pub struct RotaryEmbedding {
    pub(crate) cos_cache: Tensor,
    pub(crate) sin_cache: Tensor,
    pub(crate) dim: usize,
    pub(crate) max_seq_len: usize,
    pub(crate) cpu: bool,
}

impl RotaryEmbedding {
    /// The tables hold one row of `dim/2` angles per position; tables marked
    /// as processor-backed are processor float tensors.
    pub closed spec fn wf(self) -> bool {
        &&& dims_of(self.cos_cache) == seq![self.max_seq_len as int, (self.dim / 2) as int]
        &&& dims_of(self.sin_cache) == seq![self.max_seq_len as int, (self.dim / 2) as int]
        &&& (self.cpu ==> cpu_float(self.cos_cache) && cpu_float(self.sin_cache))
    }

    /// Are the tables 32-bit floats on the processor?
    pub closed spec fn spec_cpu(self) -> bool {
        self.cpu
    }

    /// The head dimension the tables were built for.
    pub closed spec fn spec_dim(self) -> int {
        self.dim as int
    }

    /// The longest total sequence the tables can rotate.
    pub closed spec fn spec_max_seq_len(self) -> int {
        self.max_seq_len as int
    }

    /// Precompute the rotation tables for a head dimension, a maximum
    /// sequence length, and an integer base frequency.
    pub fn new(dim: usize, max_seq_len: usize, base: u32, device: &Device) -> (r: Result<
        RotaryEmbedding,
        PocketTTSError,
    >)
        requires
            dim <= 0xffff_ffff,
            max_seq_len <= 0xffff_ffff,
        ensures
            is_cpu(*device) ==> r is Ok,
            r matches Ok(rope) ==> rope.wf() && rope.spec_dim() == dim && rope.spec_max_seq_len()
                == max_seq_len && rope.spec_cpu() == is_cpu(*device),
    {
        let cpu = crate::tensors::device_is_cpu(device);
        let half_dim = dim / 2;
        // inverse frequencies: 1 / base^(2 i / dim) = exp(-(2 i / dim) ln base)
        let indices = arange_tensor(half_dim as u32, device)?;
        let two = scalar_tensor(2, device)?;
        let dim_t = scalar_tensor(dim as u32, device)?;
        let base_t = scalar_tensor(base, device)?;
        proof {
            lemma_bcast_into(seq![half_dim as int], seq![1int]);
        }
        let doubled = tensor_broadcast_mul(&indices, &two)?;
        let exponent = tensor_broadcast_div(&doubled, &dim_t)?;
        let ln_base = tensor_log(&base_t)?;
        let scaled = tensor_broadcast_mul(&exponent, &ln_base)?;
        let inv_freq = tensor_exp(&tensor_neg(&scaled)?)?;

        // outer product of positions and inverse frequencies
        let positions = arange_tensor(max_seq_len as u32, device)?;
        let positions_col = tensor_unsqueeze(&positions, 1)?;
        let inv_freq_row = tensor_unsqueeze(&inv_freq, 0)?;
        let freqs = tensor_matmul(&positions_col, &inv_freq_row)?;
        let cos_cache = tensor_cos(&freqs)?;
        let sin_cache = tensor_sin(&freqs)?;
        proof {
            assert(dims_of(cos_cache) =~= seq![max_seq_len as int, half_dim as int]);
            assert(dims_of(sin_cache) =~= seq![max_seq_len as int, half_dim as int]);
        }
        Ok(RotaryEmbedding { cos_cache, sin_cache, dim, max_seq_len, cpu })
    }

    /// Rotate the two halves of the last dimension by the `seq` rows of the
    /// tables starting at `offset`.
    fn apply_rotary(&self, x: &Tensor, cos: &Tensor, sin: &Tensor) -> (r: Result<
        Tensor,
        PocketTTSError,
    >)
        requires
            dims_of(*x).len() == 4,
            dims_of(*cos).len() == 2,
            dims_of(*sin) == dims_of(*cos),
            dims_of(*cos)[0] == dims_of(*x)[1],
            dims_of(*cos)[1] == self.spec_dim() / 2,
        ensures
            (cpu_float(*x) && cpu_float(*cos) && cpu_float(*sin) && dims_of(*x)[3]
                == self.spec_dim()) ==> r is Ok,
            r matches Ok(o) ==> dims_of(o) == dims_of(*x).update(3, 2 * (self.spec_dim() / 2)) && (
            cpu_float(*x) && cpu_float(*cos) && cpu_float(*sin) ==> cpu_float(o)),
    {
        let half_dim = self.dim / 2;
        let x1 = tensor_narrow(x, 3, 0, half_dim)?;
        let x2 = tensor_narrow(x, 3, half_dim, half_dim)?;

        // reshape the tables to [1, seq, 1, half] for broadcasting
        let cos4 = tensor_unsqueeze(&tensor_unsqueeze(cos, 0)?, 2)?;
        let sin4 = tensor_unsqueeze(&tensor_unsqueeze(sin, 0)?, 2)?;
        proof {
            assert(dims_of(x1) =~= dims_of(*x).update(3, half_dim as int));
            assert(dims_of(cos4) =~= seq![1int, dims_of(*x)[1], 1int, half_dim as int]);
            lemma_bcast_into(dims_of(x1), dims_of(cos4));
        }

        // rotate: [x1, x2] -> [x1 cos - x2 sin, x1 sin + x2 cos]
        let x1c = tensor_broadcast_mul(&x1, &cos4)?;
        let x2s = tensor_broadcast_mul(&x2, &sin4)?;
        let rotated_1 = tensor_broadcast_sub(&x1c, &x2s)?;
        let x1s = tensor_broadcast_mul(&x1, &sin4)?;
        let x2c = tensor_broadcast_mul(&x2, &cos4)?;
        let rotated_2 = tensor_broadcast_add(&x1s, &x2c)?;
        proof {
            lemma_bcast_into(dims_of(x1c), dims_of(x2s));
        }
        let out = tensor_cat2(&rotated_1, &rotated_2, 3)?;
        proof {
            assert(dims_of(out) =~= dims_of(*x).update(3, 2 * (self.spec_dim() / 2)));
        }
        Ok(out)
    }

    /// Apply rotary embeddings to query and key tensors of shape
    /// [batch, seq, num_heads, head_dim], using table rows `offset..offset+seq`.
    /// Fails when `offset + seq` runs past the table, which caps the total
    /// sequence length a session can generate.
    pub fn forward(&self, q: &Tensor, k: &Tensor, offset: usize) -> (r: Result<
        (Tensor, Tensor),
        PocketTTSError,
    >)
        requires
            self.wf(),
            dims_of(*q).len() == 4,
            dims_of(*k).len() == 4,
            dims_of(*k)[1] == dims_of(*q)[1],
        ensures
            offset + dims_of(*q)[1] > self.spec_max_seq_len() ==> r is Err,
            (self.spec_cpu() && cpu_float(*q) && cpu_float(*k) && dims_of(*q)[3] == self.spec_dim()
                && dims_of(*k)[3] == self.spec_dim() && offset + dims_of(*q)[1]
                <= self.spec_max_seq_len()) ==> r is Ok,
            r matches Ok(p) ==> ({
                &&& offset + dims_of(*q)[1] <= self.spec_max_seq_len()
                &&& dims_of(p.0) == dims_of(*q).update(3, 2 * (self.spec_dim() / 2))
                &&& dims_of(p.1) == dims_of(*k).update(3, 2 * (self.spec_dim() / 2))
                &&& (self.spec_cpu() && cpu_float(*q) && cpu_float(*k) ==> cpu_float(p.0)
                    && cpu_float(p.1))
            }),
    {
        let qd = tensor_dims(q);
        let seq_len = qd[1];
        if seq_len > self.max_seq_len || offset > self.max_seq_len - seq_len {
            return Err(
                PocketTTSError::InferenceFailed(
                    String::from_str("sequence length exceeds rotary table"),
                ),
            );
        }
        let cos = tensor_narrow(&self.cos_cache, 0, offset, seq_len)?;
        let sin = tensor_narrow(&self.sin_cache, 0, offset, seq_len)?;
        let q_rotated = self.apply_rotary(q, &cos, &sin)?;
        let k_rotated = self.apply_rotary(k, &cos, &sin)?;
        Ok((q_rotated, k_rotated))
    }
}

} // verus!
