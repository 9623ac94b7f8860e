//! Audio utilities that live with the pipeline's tensors.
//!
//! Container encoding and resampling are host concerns; what stays here is
//! the sample format contract and peak normalization over a waveform tensor.

use vstd::prelude::*;

use candle_core::Tensor;

use crate::error::PocketTTSError;
use crate::tensors::cpu_float;
use crate::tensors::dims_of;
use crate::tensors::lemma_bcast_into;
use crate::tensors::scalar_tensor;
use crate::tensors::scalar_gt;
use crate::tensors::tensor_abs;
use crate::tensors::tensor_broadcast_div;
use crate::tensors::tensor_broadcast_mul;
use crate::tensors::tensor_clone;
use crate::tensors::tensor_device;
use crate::tensors::tensor_dims;
use crate::tensors::tensor_max1;

verus! {

/// Nominal output sample rate.
pub const SAMPLE_RATE: u32 = 24000;

/// Output channel count (mono).
pub const CHANNELS: u16 = 1;

/// Bits per emitted sample (32-bit float samples).
pub const BITS_PER_SAMPLE: u16 = 32;

/// Normalize a one-dimensional waveform so its peak magnitude sits at
/// ninety-five hundredths: any non-silent waveform is scaled by that target
/// over its peak, while a silent (all-zero) or empty one comes back
/// unchanged.  The samples are floats, outside the verified model; the shape
/// is preserved exactly, and a processor float waveform always goes through.
pub fn normalize(samples: &Tensor) -> (r: Result<Tensor, PocketTTSError>)
    requires
        dims_of(*samples).len() == 1,
    ensures
        cpu_float(*samples) ==> r is Ok,
        r matches Ok(o) ==> dims_of(o) == dims_of(*samples) && (cpu_float(*samples) ==> cpu_float(
            o,
        )),
{
    let sd = tensor_dims(samples);
    proof {
        assert(sd@.len() == dims_of(*samples).len());
    }
    if sd[0] == 0 {
        return Ok(tensor_clone(samples));
    }
    let device = tensor_device(samples);
    let magnitudes = tensor_abs(samples)?;
    let peak = tensor_max1(&magnitudes)?;
    let zero = scalar_tensor(0, &device)?;
    if scalar_gt(&peak, &zero)? {
        // scale by (95/100) / peak, leaving some headroom
        let target_num = scalar_tensor(95, &device)?;
        let hundred = scalar_tensor(100, &device)?;
        proof {
            lemma_bcast_into(seq![1int], seq![1int]);
            lemma_bcast_into(dims_of(*samples), seq![1int]);
        }
        let target = tensor_broadcast_div(&target_num, &hundred)?;
        let scale = tensor_broadcast_div(&target, &peak)?;
        tensor_broadcast_mul(samples, &scale)
    } else {
        Ok(tensor_clone(samples))
    }
}

} // verus!
