//! Feed-forward modules and the consistency sampler.

use vstd::prelude::*;
use vstd::string::StringExecFns;

use candle_core::Device;
use candle_core::Tensor;

use crate::error::PocketTTSError;
use crate::tensors::arange_tensor;
use crate::tensors::cpu_float;
use crate::tensors::cpu_store;
use crate::tensors::dims_of;
use crate::tensors::is_cpu;
use crate::tensors::lemma_bcast_last_one;
use crate::tensors::lemma_bcast_into;
use crate::tensors::scalar_tensor;
use crate::tensors::tensor_argmax_keepdim_last;
use crate::tensors::tensor_broadcast_div;
use crate::tensors::tensor_eq_indicator;
use crate::tensors::tensor_gelu;
use crate::tensors::tensor_mul;
use crate::tensors::tensor_silu;
use crate::tensors::tensor_softmax_last;
use crate::tensors::LinearLayer;
use crate::tensors::WeightStore;

verus! {

/// Standard two-layer feed-forward block with a gelu in the middle.
pub struct MLP {
    pub(crate) up_proj: LinearLayer,
    pub(crate) down_proj: LinearLayer,
}

impl MLP {
    /// The two projections meet in the intermediate width.
    pub closed spec fn wf(self) -> bool {
        &&& self.up_proj.out_dim == self.down_proj.in_dim
        &&& self.up_proj.in_dim >= 1
        &&& self.down_proj.in_dim >= 1
    }

    /// The width the block takes in.
    pub closed spec fn spec_in_dim(self) -> int {
        self.up_proj.in_dim as int
    }

    /// Are the projections 32-bit floats on the processor?
    pub closed spec fn on_cpu(self) -> bool {
        self.up_proj.cpu && self.down_proj.cpu
    }

    /// The width the block maps back to.
    pub closed spec fn spec_out_dim(self) -> int {
        self.down_proj.out_dim as int
    }

    /// Draw both projections from the store.
    pub fn new(hidden_size: usize, intermediate_size: usize, ws: &WeightStore) -> (r: Result<
        MLP,
        PocketTTSError,
    >)
        requires
            hidden_size >= 1,
            intermediate_size >= 1,
        ensures
            r matches Ok(m) ==> m.wf() && m.spec_out_dim() == hidden_size && m.spec_in_dim()
                == hidden_size && (m.on_cpu() == cpu_store(*ws)),
            r matches Err(e) ==> e is ModelLoadFailed,
    {
        let up_proj = LinearLayer::new(&ws.sub("up_proj"), hidden_size, intermediate_size)?;
        let down_proj = LinearLayer::new(&ws.sub("down_proj"), intermediate_size, hidden_size)?;
        Ok(MLP { up_proj, down_proj })
    }

    /// Up-project, gelu, down-project; only the last dimension changes, to
    /// the block's output width.
    pub fn forward(&self, x: &Tensor) -> (r: Result<Tensor, PocketTTSError>)
        requires
            self.wf(),
            dims_of(*x).len() >= 2,
        ensures
            (self.on_cpu() && cpu_float(*x) && dims_of(*x).len() <= 4 && dims_of(*x)[dims_of(
                *x,
            ).len() - 1] == self.spec_in_dim()) ==> r is Ok,
            r matches Ok(o) ==> dims_of(o) == dims_of(*x).update(
                dims_of(*x).len() - 1,
                self.spec_out_dim(),
            ) && (self.on_cpu() && cpu_float(*x) ==> cpu_float(o)),
    {
        let up = self.up_proj.forward(x)?;
        let mid = tensor_gelu(&up)?;
        let out = self.down_proj.forward(&mid)?;
        proof {
            assert(dims_of(out) =~= dims_of(*x).update(dims_of(*x).len() - 1, self.spec_out_dim()));
        }
        Ok(out)
    }
}

/// Gated feed-forward block: down(silu(gate(x)) * up(x)).
pub struct GatedMLP {
    pub(crate) gate_proj: LinearLayer,
    pub(crate) up_proj: LinearLayer,
    pub(crate) down_proj: LinearLayer,
}

impl GatedMLP {
    /// Gate and up paths agree and meet the down projection.
    pub closed spec fn wf(self) -> bool {
        &&& self.gate_proj.in_dim == self.up_proj.in_dim
        &&& self.gate_proj.out_dim == self.up_proj.out_dim
        &&& self.up_proj.out_dim == self.down_proj.in_dim
        &&& self.up_proj.in_dim >= 1
        &&& self.down_proj.in_dim >= 1
    }

    /// The width the block takes in.
    pub closed spec fn spec_in_dim(self) -> int {
        self.up_proj.in_dim as int
    }

    /// Are the projections 32-bit floats on the processor?
    pub closed spec fn on_cpu(self) -> bool {
        self.gate_proj.cpu && self.up_proj.cpu && self.down_proj.cpu
    }

    /// The width the block maps back to.
    pub closed spec fn spec_out_dim(self) -> int {
        self.down_proj.out_dim as int
    }

    /// Draw the three projections from the store.
    pub fn new(hidden_size: usize, intermediate_size: usize, ws: &WeightStore) -> (r: Result<
        GatedMLP,
        PocketTTSError,
    >)
        requires
            hidden_size >= 1,
            intermediate_size >= 1,
        ensures
            r matches Ok(m) ==> m.wf() && m.spec_out_dim() == hidden_size && m.spec_in_dim()
                == hidden_size && m.on_cpu() == cpu_store(*ws),
            r matches Err(e) ==> e is ModelLoadFailed,
    {
        let gate_proj = LinearLayer::new(&ws.sub("gate_proj"), hidden_size, intermediate_size)?;
        let up_proj = LinearLayer::new(&ws.sub("up_proj"), hidden_size, intermediate_size)?;
        let down_proj = LinearLayer::new(&ws.sub("down_proj"), intermediate_size, hidden_size)?;
        Ok(GatedMLP { gate_proj, up_proj, down_proj })
    }

    /// down(silu(gate(x)) * up(x)); only the last dimension changes, to the
    /// block's output width.
    pub fn forward(&self, x: &Tensor) -> (r: Result<Tensor, PocketTTSError>)
        requires
            self.wf(),
            dims_of(*x).len() >= 2,
        ensures
            (self.on_cpu() && cpu_float(*x) && dims_of(*x).len() <= 4 && dims_of(*x)[dims_of(
                *x,
            ).len() - 1] == self.spec_in_dim()) ==> r is Ok,
            r matches Ok(o) ==> dims_of(o) == dims_of(*x).update(
                dims_of(*x).len() - 1,
                self.spec_out_dim(),
            ) && (self.on_cpu() && cpu_float(*x) ==> cpu_float(o)),
    {
        let gate = tensor_silu(&self.gate_proj.forward(x)?)?;
        let up = self.up_proj.forward(x)?;
        let hidden = tensor_mul(&gate, &up)?;
        let out = self.down_proj.forward(&hidden)?;
        proof {
            assert(dims_of(out) =~= dims_of(*x).update(dims_of(*x).len() - 1, self.spec_out_dim()));
        }
        Ok(out)
    }
}

/// The consistency sampler: a small stack of linear layers, iterated for a
/// clamped number of refinement rounds.
pub struct MLPSampler {
    pub(crate) layers: Vec<LinearLayer>,
    pub(crate) num_steps: usize,
    pub(crate) input_dim: usize,
    pub(crate) output_dim: usize,
}

impl MLPSampler {
    /// The layers chain input width to output width, and the round count
    /// stays clamped.
    pub closed spec fn wf(self) -> bool {
        &&& self.layers@.len() >= 1
        &&& self.layers@[0].in_dim == self.input_dim
        &&& self.layers@[self.layers@.len() - 1].out_dim == self.output_dim
        &&& forall|i: int|
            0 < i < self.layers@.len() ==> (#[trigger] self.layers@[i]).in_dim == self.layers@[i
                - 1].out_dim
        &&& 1 <= self.num_steps <= 4
        &&& self.output_dim >= 1
        &&& self.input_dim >= 1
        &&& forall|i: int| 0 <= i < self.layers@.len() ==> (#[trigger] self.layers@[i]).in_dim >= 1
    }

    /// Are all layers 32-bit floats on the processor?
    pub closed spec fn on_cpu(self) -> bool {
        forall|i: int| 0 <= i < self.layers@.len() ==> (#[trigger] self.layers@[i]).cpu
    }

    /// The width a latent frame enters with.
    pub closed spec fn spec_input_dim(self) -> int {
        self.input_dim as int
    }

    /// The number of refinement rounds a sampling pass runs.
    pub closed spec fn spec_num_steps(self) -> int {
        self.num_steps as int
    }

    /// The width of a refined latent frame.
    pub closed spec fn spec_output_dim(self) -> int {
        self.output_dim as int
    }

    /// The layer stack itself.
    pub closed spec fn spec_layers(self) -> Seq<LinearLayer> {
        self.layers@
    }

    /// Draw the layer stack from the store.
    pub fn new(
        input_dim: usize,
        hidden_dim: usize,
        output_dim: usize,
        num_layers: usize,
        ws: &WeightStore,
    ) -> (r: Result<MLPSampler, PocketTTSError>)
        requires
            num_layers >= 1,
            output_dim >= 1,
            input_dim >= 1,
            hidden_dim >= 1,
        ensures
            r matches Ok(s) ==> s.wf() && s.spec_num_steps() == 2 && s.spec_output_dim()
                == output_dim && s.spec_input_dim() == input_dim && s.on_cpu() == cpu_store(*ws),
            r matches Err(e) ==> e is ModelLoadFailed,
    {
        let mut layers: Vec<LinearLayer> = Vec::new();
        let mut i: usize = 0;
        while i < num_layers
            invariant
                i <= num_layers,
                1 <= num_layers,
                1 <= input_dim,
                1 <= hidden_dim,
                1 <= output_dim,
                layers@.len() == i,
                i > 0 ==> layers@[0].in_dim == input_dim,
                forall|j: int| 0 <= j < i ==> (#[trigger] layers@[j]).out_dim == (if j + 1
                    == num_layers {
                    output_dim as int
                } else {
                    hidden_dim as int
                }),
                forall|j: int|
                    0 < j < i ==> (#[trigger] layers@[j]).in_dim == layers@[j - 1].out_dim,
                forall|j: int| 0 <= j < i ==> (#[trigger] layers@[j]).in_dim >= 1,
                forall|j: int| 0 <= j < i ==> (#[trigger] layers@[j]).cpu == cpu_store(*ws),
            decreases num_layers - i,
        {
            let in_dim = if i == 0 {
                input_dim
            } else {
                hidden_dim
            };
            let out_dim = if i + 1 == num_layers {
                output_dim
            } else {
                hidden_dim
            };
            let name = String::from_str("layer_").concat(
                crate::error::u32_to_decimal(i as u32).as_str(),
            );
            let layer = LinearLayer::new(&ws.sub(name.as_str()), in_dim, out_dim)?;
            layers.push(layer);
            i = i + 1;
        }
        Ok(MLPSampler { layers, num_steps: 2, input_dim, output_dim })
    }

    /// Clamp the requested number of refinement rounds into one to four.
    pub fn set_num_steps(&mut self, steps: usize)
        requires
            old(self).wf(),
        ensures
            final(self).wf(),
            final(self).spec_num_steps() == (if steps < 1 {
                1int
            } else if steps > 4 {
                4int
            } else {
                steps as int
            }),
            1 <= final(self).spec_num_steps() <= 4,
            final(self).spec_layers() == old(self).spec_layers(),
            final(self).spec_output_dim() == old(self).spec_output_dim(),
            final(self).spec_input_dim() == old(self).spec_input_dim(),
            final(self).on_cpu() == old(self).on_cpu(),
    {
        self.num_steps = if steps < 1 {
            1
        } else if steps > 4 {
            4
        } else {
            steps
        };
    }

    /// One pass through the layer stack, with a gelu between layers; the
    /// last dimension becomes the output width.
    pub fn forward(&self, x: &Tensor) -> (r: Result<Tensor, PocketTTSError>)
        requires
            self.wf(),
            dims_of(*x).len() >= 2,
        ensures
            (self.on_cpu() && cpu_float(*x) && dims_of(*x).len() <= 4 && dims_of(*x)[dims_of(
                *x,
            ).len() - 1] == self.spec_input_dim()) ==> r is Ok,
            r matches Ok(o) ==> dims_of(o) == dims_of(*x).update(
                dims_of(*x).len() - 1,
                self.spec_output_dim(),
            ) && (self.on_cpu() && cpu_float(*x) ==> cpu_float(o)),
    {
        let ghost xd = dims_of(*x);
        let ghost fine = self.on_cpu() && cpu_float(*x) && xd.len() <= 4 && xd[xd.len() - 1]
            == self.spec_input_dim();
        let n = self.layers.len();
        let mut hidden = crate::tensors::tensor_clone(x);
        let mut i: usize = 0;
        while i < n
            invariant
                self.wf(),
                i <= n,
                n == self.layers@.len(),
                xd == dims_of(*x),
                xd.len() >= 2,
                fine == (self.on_cpu() && cpu_float(*x) && xd.len() <= 4 && xd[xd.len() - 1]
                    == self.spec_input_dim()),
                dims_of(hidden) == (if i == 0 {
                    xd
                } else {
                    xd.update(xd.len() - 1, self.layers@[i - 1].out_dim as int)
                }),
                self.on_cpu() && cpu_float(*x) ==> cpu_float(hidden),
            decreases n - i,
        {
            proof {
                if fine {
                    assert(dims_of(hidden)[dims_of(hidden).len() - 1]
                        == self.layers@[i as int].in_dim);
                }
            }
            let next = self.layers[i].forward(&hidden)?;
            hidden = if i + 1 < n {
                tensor_gelu(&next)?
            } else {
                next
            };
            proof {
                assert(dims_of(hidden) =~= xd.update(xd.len() - 1, self.layers@[i as int].out_dim as int));
            }
            i = i + 1;
        }
        Ok(hidden)
    }

    /// Consistency sampling: for each refinement round, refine the latents
    /// through the stack, scale by the reciprocal temperature (given in
    /// thousandths), and select deterministically.  The selection is the
    /// arg-max of the softmax over the latent axis, re-expressed as a one-hot
    /// latent so every round keeps the frame shape; the nucleus threshold is
    /// accepted but plays no part in this deterministic policy, which stands
    /// in for true nucleus sampling over a continuous latent.
    pub fn sample(&self, x: &Tensor, temperature_milli: u32, top_p_milli: u32, device: &Device)
        -> (r: Result<Tensor, PocketTTSError>)
        requires
            self.wf(),
            self.spec_output_dim() <= 0xffff_ffff,
            dims_of(*x).len() >= 2,
        ensures
            ({
                let xd = dims_of(*x);
                self.on_cpu() && cpu_float(*x) && is_cpu(*device) && xd.len() <= 4 && xd[xd.len()
                    - 1] == self.spec_input_dim() && self.spec_input_dim()
                    == self.spec_output_dim()
            }) ==> r is Ok,
            r matches Ok(o) ==> dims_of(o) == dims_of(*x).update(
                dims_of(*x).len() - 1,
                self.spec_output_dim(),
            ) && (self.on_cpu() && cpu_float(*x) && is_cpu(*device) ==> cpu_float(o)),
    {
        let ghost xd = dims_of(*x);
        let ghost fine = self.on_cpu() && cpu_float(*x) && is_cpu(*device) && xd.len() <= 4 && xd[
            xd.len() - 1] == self.spec_input_dim() && self.spec_input_dim()
            == self.spec_output_dim();
        let _ = top_p_milli;
        let mut current = crate::tensors::tensor_clone(x);
        let mut step: usize = 0;
        while step < self.num_steps
            invariant
                self.wf(),
                self.spec_output_dim() <= 0xffff_ffff,
                xd == dims_of(*x),
                xd.len() >= 2,
                step <= self.num_steps,
                fine == (self.on_cpu() && cpu_float(*x) && is_cpu(*device) && xd.len() <= 4 && xd[
                    xd.len() - 1] == self.spec_input_dim() && self.spec_input_dim()
                    == self.spec_output_dim()),
                dims_of(current) == xd || dims_of(current) == xd.update(
                    xd.len() - 1,
                    self.spec_output_dim(),
                ),
                step > 0 ==> dims_of(current) == xd.update(xd.len() - 1, self.spec_output_dim()),
                self.on_cpu() && cpu_float(*x) && is_cpu(*device) ==> cpu_float(current),
            decreases self.num_steps - step,
        {
            let logits = self.forward(&current)?;
            let scaled = if temperature_milli != 1000 {
                let t = scalar_tensor(temperature_milli, device)?;
                let thousand = scalar_tensor(1000, device)?;
                proof {
                    lemma_bcast_into(seq![1int], seq![1int]);
                    lemma_bcast_into(dims_of(logits), seq![1int]);
                }
                let factor = tensor_broadcast_div(&t, &thousand)?;
                tensor_broadcast_div(&logits, &factor)?
            } else {
                logits
            };
            current = self.select_deterministic(&scaled, device)?;
            proof {
                assert(dims_of(current) =~= xd.update(xd.len() - 1, self.spec_output_dim()));
            }
            step = step + 1;
        }
        Ok(current)
    }

    /// The degenerate nucleus step: softmax, arg-max along the latent axis,
    /// and a one-hot latent at the winning slot.
    fn select_deterministic(&self, logits: &Tensor, device: &Device) -> (r: Result<
        Tensor,
        PocketTTSError,
    >)
        requires
            self.wf(),
            self.spec_output_dim() <= 0xffff_ffff,
            dims_of(*logits).len() >= 1,
            dims_of(*logits)[dims_of(*logits).len() - 1] >= 1,
        ensures
            (cpu_float(*logits) && is_cpu(*device)) ==> r is Ok,
            r matches Ok(o) ==> dims_of(o) == dims_of(*logits).update(
                dims_of(*logits).len() - 1,
                self.spec_output_dim(),
            ) && (cpu_float(*logits) && is_cpu(*device) ==> cpu_float(o)),
    {
        let probs = tensor_softmax_last(logits)?;
        let winners = tensor_argmax_keepdim_last(&probs)?;
        let slots = arange_tensor(self.output_dim as u32, device)?;
        proof {
            lemma_bcast_last_one(
                dims_of(*logits).update(dims_of(*logits).len() - 1, 1int),
                self.spec_output_dim(),
            );
        }
        let onehot = tensor_eq_indicator(&winners, &slots)?;
        proof {
            assert(dims_of(onehot) =~= dims_of(*logits).update(
                dims_of(*logits).len() - 1,
                self.spec_output_dim(),
            ));
        }
        Ok(onehot)
    }
}

} // verus!
