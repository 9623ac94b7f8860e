//! Layer normalization modules.

use vstd::prelude::*;

use candle_core::Device;
use candle_core::Tensor;

use crate::error::PocketTTSError;
use crate::tensors::cpu_float;
use crate::tensors::cpu_store;
use crate::tensors::dims_of;
use crate::tensors::is_cpu;
use crate::tensors::lemma_bcast_into;
use crate::tensors::scalar_tensor;
use crate::tensors::tensor_broadcast_add;
use crate::tensors::tensor_broadcast_div;
use crate::tensors::tensor_broadcast_mul;
use crate::tensors::tensor_broadcast_sub;
use crate::tensors::tensor_device;
use crate::tensors::tensor_mean_keepdim_last;
use crate::tensors::tensor_sqr;
use crate::tensors::tensor_sqrt;
use crate::tensors::WeightStore;

verus! {

/// RMS layer normalization (used in modern transformers).  The epsilon is
/// held as a one-element tensor built from its reciprocal denominator, so an
/// `eps_denom` of a million stands for an epsilon of one millionth.
pub struct RMSNorm {
    pub(crate) weight: Tensor,
    pub(crate) eps: Tensor,
    pub(crate) hidden: usize,
    pub(crate) cpu: bool,
}

impl RMSNorm {
    /// The hidden width the norm expects in the last dimension.
    pub closed spec fn spec_hidden(self) -> int {
        self.hidden as int
    }

    /// Are the weight and epsilon 32-bit floats on the processor?
    pub closed spec fn on_cpu(self) -> bool {
        self.cpu
    }

    /// One scale weight per hidden slot, and a scalar epsilon; a norm marked
    /// as processor-backed holds processor float tensors.
    pub closed spec fn wf(self) -> bool {
        &&& dims_of(self.weight) == seq![self.hidden as int]
        &&& dims_of(self.eps) == seq![1int]
        &&& self.hidden >= 1
        &&& (self.cpu ==> cpu_float(self.weight) && cpu_float(self.eps))
    }

    fn eps_tensor(eps_denom: u32, device: &Device) -> (r: Result<Tensor, PocketTTSError>)
        ensures
            is_cpu(*device) ==> r is Ok,
            r matches Ok(t) ==> dims_of(t) == seq![1int] && (is_cpu(*device) ==> cpu_float(t)),
            r matches Err(e) ==> e is ModelLoadFailed,
    {
        let one = match scalar_tensor(1, device) {
            Ok(t) => t,
            Err(e) => {
                return Err(PocketTTSError::ModelLoadFailed(e.message()));
            },
        };
        let denom = match scalar_tensor(eps_denom, device) {
            Ok(t) => t,
            Err(e) => {
                return Err(PocketTTSError::ModelLoadFailed(e.message()));
            },
        };
        proof {
            lemma_bcast_into(seq![1int], seq![1int]);
        }
        match tensor_broadcast_div(&one, &denom) {
            Ok(t) => Ok(t),
            Err(e) => Err(PocketTTSError::ModelLoadFailed(e.message())),
        }
    }

    /// Draw the scale weight from the store.
    pub fn new(hidden_size: usize, eps_denom: u32, ws: &WeightStore, device: &Device) -> (r:
        Result<RMSNorm, PocketTTSError>)
        requires
            hidden_size >= 1,
        ensures
            r matches Ok(n) ==> n.wf() && n.spec_hidden() == hidden_size && (cpu_store(*ws)
                && is_cpu(*device) ==> n.on_cpu()),
            r matches Err(e) ==> e is ModelLoadFailed,
    {
        let weight = ws.get_vector(hidden_size, "weight")?;
        let eps = Self::eps_tensor(eps_denom, device)?;
        let cpu = ws.on_cpu() && crate::tensors::device_is_cpu(device);
        Ok(RMSNorm { weight, eps, hidden: hidden_size, cpu })
    }

    /// Wrap an existing weight tensor.
    pub fn load(hidden_size: usize, eps_denom: u32, weight: Tensor) -> (r: Result<
        RMSNorm,
        PocketTTSError,
    >)
        requires
            dims_of(weight) == seq![hidden_size as int],
            hidden_size >= 1,
        ensures
            r matches Ok(n) ==> n.wf() && n.spec_hidden() == hidden_size,
            r matches Err(e) ==> e is ModelLoadFailed,
    {
        let device = tensor_device(&weight);
        let eps = Self::eps_tensor(eps_denom, &device)?;
        Ok(RMSNorm { weight, eps, hidden: hidden_size, cpu: false })
    }

    /// Normalize by the root mean square of the last dimension and scale;
    /// the shape is kept, and a processor-backed norm accepts every processor
    /// float input.
    pub fn forward(&self, x: &Tensor) -> (r: Result<Tensor, PocketTTSError>)
        requires
            self.wf(),
            dims_of(*x).len() >= 1,
            dims_of(*x)[dims_of(*x).len() - 1] == self.spec_hidden(),
        ensures
            (self.on_cpu() && cpu_float(*x)) ==> r is Ok,
            r matches Ok(o) ==> dims_of(o) == dims_of(*x) && (self.on_cpu() && cpu_float(*x)
                ==> cpu_float(o)),
    {
        let ghost xd = dims_of(*x);
        let squared = tensor_sqr(x)?;
        let variance = tensor_mean_keepdim_last(&squared)?;
        proof {
            lemma_bcast_into(xd.update(xd.len() - 1, 1int), seq![1int]);
        }
        let shifted = tensor_broadcast_add(&variance, &self.eps)?;
        let rms = tensor_sqrt(&shifted)?;
        proof {
            lemma_bcast_into(xd, xd.update(xd.len() - 1, 1int));
        }
        let normed = tensor_broadcast_div(x, &rms)?;
        proof {
            lemma_bcast_into(xd, seq![self.hidden as int]);
        }
        tensor_broadcast_mul(&normed, &self.weight)
    }
}

/// Standard layer normalization with a scale and an optional bias.
pub struct LayerNorm {
    pub(crate) weight: Tensor,
    pub(crate) bias: Option<Tensor>,
    pub(crate) eps: Tensor,
    pub(crate) hidden: usize,
    pub(crate) cpu: bool,
}

impl LayerNorm {
    /// The hidden width the norm expects in the last dimension.
    pub closed spec fn spec_hidden(self) -> int {
        self.hidden as int
    }

    /// Are the weights and epsilon 32-bit floats on the processor?
    pub closed spec fn on_cpu(self) -> bool {
        self.cpu
    }

    /// One scale weight (and bias, when present) per hidden slot, and a
    /// scalar epsilon; a norm marked as processor-backed holds processor
    /// float tensors.
    pub closed spec fn wf(self) -> bool {
        &&& dims_of(self.weight) == seq![self.hidden as int]
        &&& (self.bias matches Some(b) ==> dims_of(b) == seq![self.hidden as int])
        &&& dims_of(self.eps) == seq![1int]
        &&& self.hidden >= 1
        &&& (self.cpu ==> cpu_float(self.weight) && cpu_float(self.eps) && (self.bias matches Some(
            b,
        ) ==> cpu_float(b)))
    }

    /// Draw the scale weight, and the bias when asked for, from the store.
    pub fn new(hidden_size: usize, eps_denom: u32, bias: bool, ws: &WeightStore, device: &Device)
        -> (r: Result<LayerNorm, PocketTTSError>)
        requires
            hidden_size >= 1,
        ensures
            r matches Ok(n) ==> n.wf() && n.spec_hidden() == hidden_size && (cpu_store(*ws)
                && is_cpu(*device) ==> n.on_cpu()),
            r matches Err(e) ==> e is ModelLoadFailed,
    {
        let weight = ws.get_vector(hidden_size, "weight")?;
        let bias_t = if bias {
            Some(ws.get_vector(hidden_size, "bias")?)
        } else {
            None
        };
        let eps = RMSNorm::eps_tensor(eps_denom, device)?;
        let cpu = ws.on_cpu() && crate::tensors::device_is_cpu(device);
        Ok(LayerNorm { weight, bias: bias_t, eps, hidden: hidden_size, cpu })
    }

    /// Center, normalize by the standard deviation of the last dimension,
    /// scale, and shift; the shape is kept, and a processor-backed norm
    /// accepts every processor float input.
    pub fn forward(&self, x: &Tensor) -> (r: Result<Tensor, PocketTTSError>)
        requires
            self.wf(),
            dims_of(*x).len() >= 1,
            dims_of(*x)[dims_of(*x).len() - 1] == self.spec_hidden(),
        ensures
            (self.on_cpu() && cpu_float(*x)) ==> r is Ok,
            r matches Ok(o) ==> dims_of(o) == dims_of(*x) && (self.on_cpu() && cpu_float(*x)
                ==> cpu_float(o)),
    {
        let ghost xd = dims_of(*x);
        let mean = tensor_mean_keepdim_last(x)?;
        proof {
            lemma_bcast_into(xd, xd.update(xd.len() - 1, 1int));
            lemma_bcast_into(xd.update(xd.len() - 1, 1int), seq![1int]);
            lemma_bcast_into(xd, seq![self.hidden as int]);
        }
        let centered = tensor_broadcast_sub(x, &mean)?;
        let variance = tensor_mean_keepdim_last(&tensor_sqr(&centered)?)?;
        let sd = tensor_sqrt(&tensor_broadcast_add(&variance, &self.eps)?)?;
        let normed = tensor_broadcast_div(&centered, &sd)?;
        let scaled = tensor_broadcast_mul(&normed, &self.weight)?;
        match &self.bias {
            Some(b) => tensor_broadcast_add(&scaled, b),
            None => Ok(scaled),
        }
    }
}

} // verus!
