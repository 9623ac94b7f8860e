//! Mimi decoder: converts latent frames from the backbone into waveform
//! samples, with an overlap-add path for streaming.
//!
//! Crossfade: the previous chunk's trailing `overlap` samples ramp linearly
//! down while the new chunk's leading samples ramp up; their sum replaces the
//! chunk's head, and the chunk's unblended tail is kept for the next round.

use vstd::prelude::*;

use candle_core::Tensor;

use crate::error::PocketTTSError;
use crate::models::seanet::SEANetConfig;
use crate::models::seanet::SEANetDecoder;
use crate::tensors::arange_tensor;
use crate::tensors::cpu_float;
use crate::tensors::cpu_store;
use crate::tensors::is_cpu;
use crate::tensors::bcast_join;
use crate::tensors::bcast_ok;
use crate::tensors::dims_of;
use crate::tensors::lemma_bcast_into;
use crate::tensors::scalar_tensor;
use crate::tensors::tensor_add;
use crate::tensors::tensor_broadcast_div;
use crate::tensors::tensor_broadcast_sub;
use crate::tensors::tensor_cat2;
use crate::tensors::tensor_dims;
use crate::tensors::tensor_mul;
use crate::tensors::tensor_narrow;
use crate::tensors::tensor_squeeze;
use crate::tensors::tensor_unsqueeze;
use crate::tensors::LinearLayer;
use crate::tensors::WeightStore;

verus! {

/// Mimi decoder configuration.  The frame rate is held in thousandths of a
/// frame per second (12500 stands for 12.5).
#[derive(Debug, Clone)]
pub struct MimiConfig {
    pub latent_dim: usize,
    pub mimi_dim: usize,
    pub sample_rate: usize,
    pub frame_rate_milli: u32,
    pub seanet_config: SEANetConfig,
}

impl MimiConfig {
    /// What building and running the decoder needs.
    pub open spec fn valid(self) -> bool {
        &&& self.seanet_config.valid()
        &&& self.frame_rate_milli >= 1
        &&& self.sample_rate * 1000 <= usize::MAX
        &&& self.latent_dim >= 1
        &&& self.mimi_dim >= 1
    }
}

impl Default for MimiConfig {
    /// The reference decoder configuration.
    fn default() -> (c: MimiConfig)
        ensures
            c.valid(),
            c.latent_dim == 32,
            c.mimi_dim == 512,
            c.sample_rate == 24000,
            c.frame_rate_milli == 12500,
    {
        MimiConfig {
            latent_dim: 32,
            mimi_dim: 512,
            sample_rate: 24000,
            frame_rate_milli: 12500,
            seanet_config: SEANetConfig::default(),
        }
    }
}

/// A verified element-for-element copy of a size list.
fn copy_sizes(v: &Vec<usize>) -> (r: Vec<usize>)
    ensures
        r@ == v@,
{
    let mut r: Vec<usize> = Vec::new();
    let mut i: usize = 0;
    while i < v.len()
        invariant
            i <= v@.len(),
            r@ == v@.take(i as int),
        decreases v@.len() - i,
    {
        r.push(v[i]);
        proof {
            assert(v@.take(i + 1) =~= v@.take(i as int).push(v@[i as int]));
        }
        i = i + 1;
    }
    proof {
        assert(v@.take(v@.len() as int) =~= v@);
    }
    r
}

/// Mimi decoder: a learned projection from the backbone's latent width to
/// the decoder width, then the SEANet upsampling stack.
pub struct MimiDecoder {
    config: MimiConfig,
    latent_proj: LinearLayer,
    seanet: SEANetDecoder,
}

impl MimiDecoder {
    /// The projection feeds the upsampling stack.
    pub closed spec fn wf(self) -> bool {
        &&& self.config.valid()
        &&& self.latent_proj.in_dim == self.config.latent_dim
        &&& self.latent_proj.out_dim == self.config.mimi_dim
        &&& self.seanet.wf()
        &&& self.seanet.spec_config().latent_dim == self.config.mimi_dim
        &&& self.seanet.spec_config().block_strides()
            == self.config.seanet_config.block_strides()
    }

    /// The configuration the decoder was built with.
    pub closed spec fn spec_config(self) -> MimiConfig {
        self.config
    }

    /// The number of waveform samples decoded from `l` latent frames.
    pub closed spec fn spec_out_samples(self, l: int) -> int {
        self.seanet.spec_out_samples(l)
    }

    /// Are the projection and the upsampling stack 32-bit floats on the
    /// processor?
    pub closed spec fn on_cpu(self) -> bool {
        self.latent_proj.cpu && self.seanet.on_cpu()
    }

    /// Build the projection and the upsampling stack from the store.
    pub fn new(config: MimiConfig, ws: &WeightStore) -> (r: Result<MimiDecoder, PocketTTSError>)
        requires
            config.valid(),
        ensures
            r matches Ok(d) ==> d.wf() && d.spec_config() == config && (cpu_store(*ws)
                ==> d.on_cpu()),
            r matches Err(e) ==> e is ModelLoadFailed,
    {
        let latent_proj = LinearLayer::new(
            &ws.sub("latent_proj"),
            config.latent_dim,
            config.mimi_dim,
        )?;
        let seanet_config = SEANetConfig {
            latent_dim: config.mimi_dim,
            channels: copy_sizes(&config.seanet_config.channels),
            kernel_sizes: copy_sizes(&config.seanet_config.kernel_sizes),
            strides: copy_sizes(&config.seanet_config.strides),
            sample_rate: config.seanet_config.sample_rate,
        };
        proof {
            assert(seanet_config.block_strides() =~= config.seanet_config.block_strides());
        }
        let seanet = SEANetDecoder::new(seanet_config, &ws.sub("decoder"))?;
        Ok(MimiDecoder { config, latent_proj, seanet })
    }

    /// Decode latent frames [batch, seq, latent_dim] to a waveform
    /// [batch, samples].
    pub fn forward(&self, latents: &Tensor) -> (r: Result<Tensor, PocketTTSError>)
        requires
            self.wf(),
            dims_of(*latents).len() == 3,
            dims_of(*latents)[1] >= 2,
        ensures
            (self.on_cpu() && cpu_float(*latents) && dims_of(*latents)[2]
                == self.spec_config().latent_dim) ==> r is Ok,
            r matches Ok(o) ==> dims_of(o) == seq![
                dims_of(*latents)[0],
                self.spec_out_samples(dims_of(*latents)[1]),
            ] && (self.on_cpu() && cpu_float(*latents) ==> cpu_float(o)),
    {
        let projected = self.latent_proj.forward(latents)?;
        proof {
            assert(dims_of(projected) =~= seq![
                dims_of(*latents)[0],
                dims_of(*latents)[1],
                self.config.mimi_dim as int,
            ]);
        }
        self.seanet.forward(&projected)
    }

    /// Decode one streaming chunk and crossfade it against the previous
    /// chunk's tail.  The emitted chunk always holds exactly the decoded
    /// sample count — blending replaces its head, it never shortens it — and
    /// the returned tail is the unblended trailing overlap window.
    pub fn decode_streaming(
        &self,
        latents: &Tensor,
        overlap_samples: usize,
        previous_tail: Option<&Tensor>,
    ) -> (r: Result<(Tensor, Tensor), PocketTTSError>)
        requires
            self.wf(),
            dims_of(*latents).len() == 3,
            dims_of(*latents)[0] == 1,
            dims_of(*latents)[1] >= 2,
            overlap_samples <= 0xffff_ffff,
            previous_tail matches Some(t) ==> dims_of(*t).len() == 1,
        ensures
            (self.on_cpu() && cpu_float(*latents) && dims_of(*latents)[2]
                == self.spec_config().latent_dim && (previous_tail matches Some(t) ==> cpu_float(
                *t,
            ))) ==> r is Ok,
            r matches Ok(p) ==> ({
                let total = self.spec_out_samples(dims_of(*latents)[1]);
                &&& dims_of(p.0) == seq![1int, total]
                &&& dims_of(p.1) == seq![
                    (if overlap_samples <= total {
                        overlap_samples as int
                    } else {
                        total
                    }),
                ]
                &&& (self.on_cpu() && cpu_float(*latents) && (previous_tail matches Some(t)
                    ==> cpu_float(*t)) ==> cpu_float(p.0) && cpu_float(p.1))
            }),
    {
        let audio = self.forward(latents)?;
        let ad = tensor_dims(&audio);
        proof {
            assert(ad@.len() == dims_of(audio).len());
        }
        let total = ad[1];
        let device = crate::tensors::tensor_device(&audio);

        // the unblended trailing overlap window becomes the next tail
        let keep = if overlap_samples <= total {
            overlap_samples
        } else {
            total
        };
        let tail_start = total - keep;
        let tail_wide = tensor_narrow(&audio, 1, tail_start, keep)?;
        let tail = tensor_squeeze(&tail_wide, 0)?;
        proof {
            assert(dims_of(tail) =~= seq![keep as int]);
        }

        let blended_audio = match previous_tail {
            Some(prev) => {
                let pd = tensor_dims(prev);
                let prev_len = pd[0];
                let fade_candidate = if prev_len <= keep {
                    prev_len
                } else {
                    keep
                };
                let fade_len = fade_candidate;
                if fade_len > 0 {
                    // complementary linear ramps over the overlap window
                    let ramp = arange_tensor(fade_len as u32, &device)?;
                    let len_t = scalar_tensor(fade_len as u32, &device)?;
                    proof {
                        lemma_bcast_into(seq![fade_len as int], seq![1int]);
                    }
                    let fade_in = tensor_broadcast_div(&ramp, &len_t)?;
                    let one_t = scalar_tensor(1, &device)?;
                    proof {
                        assert(bcast_ok(seq![1int], seq![fade_len as int]));
                        assert(bcast_join(seq![1int], seq![fade_len as int]) =~= seq![
                            fade_len as int,
                        ]);
                    }
                    let fade_out = tensor_broadcast_sub(&one_t, &fade_in)?;

                    let prev_overlap = tensor_narrow(prev, 0, prev_len - fade_len, fade_len)?;
                    let curr_head = tensor_narrow(&audio, 1, 0, fade_len)?;
                    let curr_overlap = tensor_squeeze(&curr_head, 0)?;
                    proof {
                        assert(dims_of(curr_overlap) =~= seq![fade_len as int]);
                        assert(dims_of(prev_overlap) =~= seq![fade_len as int]);
                    }
                    let faded_prev = tensor_mul(&prev_overlap, &fade_out)?;
                    let faded_curr = tensor_mul(&curr_overlap, &fade_in)?;
                    let blended = tensor_add(&faded_prev, &faded_curr)?;

                    // splice: the blended head, then the rest of the chunk
                    let rest = tensor_narrow(&audio, 1, fade_len, total - fade_len)?;
                    let blended_row = tensor_unsqueeze(&blended, 0)?;
                    let spliced = tensor_cat2(&blended_row, &rest, 1)?;
                    proof {
                        assert(dims_of(spliced) =~= seq![1int, total as int]);
                    }
                    spliced
                } else {
                    audio
                }
            },
            None => audio,
        };
        proof {
            assert(dims_of(blended_audio) =~= seq![
                1int,
                self.spec_out_samples(dims_of(*latents)[1]),
            ]);
        }
        Ok((blended_audio, tail))
    }

    /// Nominal samples per latent frame: the sample rate divided by the
    /// frame rate (both in their fixed-point forms).
    pub fn samples_per_frame(&self) -> (n: usize)
        requires
            self.wf(),
        ensures
            n == self.spec_config().sample_rate * 1000 / self.spec_config().frame_rate_milli as int,
    {
        self.config.sample_rate * 1000 / (self.config.frame_rate_milli as usize)
    }

    /// The configuration the decoder was built with.
    pub fn config(&self) -> (r: &MimiConfig)
        ensures
            *r == self.spec_config(),
    {
        &self.config
    }

    /// The decoder's output sample rate.
    pub fn sample_rate(&self) -> (n: usize)
        requires
            self.wf(),
        ensures
            n == self.spec_config().sample_rate,
            n * 1000 <= usize::MAX,
    {
        self.config.sample_rate
    }
}

} // verus!
