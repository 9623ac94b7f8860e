//! Convolution modules for audio decoding.
//!
//! A causal convolution pads only on the left by `(kernel_size-1)*dilation`
//! and trims trailing output back to the input length, so output position `t`
//! depends only on input positions up to `t` and the length is preserved.

use vstd::prelude::*;

use candle_core::Device;
use candle_core::Tensor;
use candle_nn::Module;

use crate::error::PocketTTSError;
use crate::tensors::cpu_float;
use crate::tensors::conv1d_out_len;
use crate::tensors::conv_transpose1d_out_len;
use crate::tensors::dims_of;
use crate::tensors::tensor_gelu;
use crate::tensors::tensor_narrow;
use crate::tensors::WeightStore;

verus! {

/// 1-d convolution wrapper: candle's convolution with its declared geometry.
pub struct Conv1dLayer {
    pub(crate) inner: candle_nn::Conv1d,
    pub(crate) in_channels: usize,
    pub(crate) out_channels: usize,
    pub(crate) kernel_size: usize,
    pub(crate) stride: usize,
    pub(crate) padding: usize,
    pub(crate) dilation: usize,
    pub(crate) cpu: bool,
}

impl Conv1dLayer {
    /// The geometry candle will not take quietly: a kernel, a positive
    /// stride and dilation.
    pub closed spec fn wf(self) -> bool {
        &&& self.kernel_size >= 1
        &&& self.stride >= 1
        &&& self.dilation >= 1
    }

    /// The length `forward` gives a rank-three input of length `l`.
    pub open spec fn spec_out_len(self, l: int) -> int {
        conv1d_out_len(
            l,
            self.spec_kernel(),
            self.spec_padding(),
            self.spec_stride(),
            self.spec_dilation(),
        )
    }

    pub closed spec fn spec_in_channels(self) -> int {
        self.in_channels as int
    }

    pub closed spec fn spec_out_channels(self) -> int {
        self.out_channels as int
    }

    pub closed spec fn spec_kernel(self) -> int {
        self.kernel_size as int
    }

    pub closed spec fn spec_stride(self) -> int {
        self.stride as int
    }

    pub closed spec fn spec_padding(self) -> int {
        self.padding as int
    }

    pub closed spec fn spec_dilation(self) -> int {
        self.dilation as int
    }

    /// Are the kernel and bias 32-bit floats on the processor?
    pub closed spec fn on_cpu(self) -> bool {
        self.cpu
    }

    /// A convolution of the given geometry with unit dilation.
    pub fn new(
        in_channels: usize,
        out_channels: usize,
        kernel_size: usize,
        stride: usize,
        padding: usize,
        ws: &WeightStore,
    ) -> (r: Result<Conv1dLayer, PocketTTSError>)
        requires
            kernel_size >= 1,
            stride >= 1,
        ensures
            r matches Ok(c) ==> ({
                &&& c.wf()
                &&& c.spec_in_channels() == in_channels
                &&& c.spec_out_channels() == out_channels
                &&& c.spec_kernel() == kernel_size
                &&& c.spec_stride() == stride
                &&& c.spec_padding() == padding
                &&& c.spec_dilation() == 1
                &&& c.on_cpu() == crate::tensors::cpu_store(*ws)
            }),
            r matches Err(e) ==> e is ModelLoadFailed,
    {
        Conv1dLayer::new_with_dilation(in_channels, out_channels, kernel_size, stride, padding, 1, ws)
    }

    /// Relies on candle_nn's conv1d: a convolution of the given geometry,
    /// its kernel and bias drawn from the store.
    #[verifier::external_body]
    pub(crate) fn new_with_dilation(
        in_channels: usize,
        out_channels: usize,
        kernel_size: usize,
        stride: usize,
        padding: usize,
        dilation: usize,
        ws: &WeightStore,
    ) -> (r: Result<Conv1dLayer, PocketTTSError>)
        requires
            kernel_size >= 1,
            stride >= 1,
            dilation >= 1,
        ensures
            r matches Ok(c) ==> ({
                &&& c.wf()
                &&& c.spec_in_channels() == in_channels
                &&& c.spec_out_channels() == out_channels
                &&& c.spec_kernel() == kernel_size
                &&& c.spec_stride() == stride
                &&& c.spec_padding() == padding
                &&& c.spec_dilation() == dilation
                &&& c.on_cpu() == crate::tensors::cpu_store(*ws)
            }),
            r matches Err(e) ==> e is ModelLoadFailed,
    {
        let config = candle_nn::Conv1dConfig { padding, stride, dilation, groups: 1, cudnn_fwd_algo: None };
        let cpu = ws.vb.device().is_cpu() && ws.vb.dtype() == candle_core::DType::F32;
        match candle_nn::conv1d(in_channels, out_channels, kernel_size, config, ws.vb.clone()) {
            Ok(inner) => Ok(Conv1dLayer { inner, in_channels, out_channels, kernel_size, stride, padding, dilation, cpu }),
            Err(e) => Err(PocketTTSError::ModelLoadFailed(e.to_string())),
        }
    }

    /// Relies on candle_nn's Conv1d::forward: a rank-three input
    /// [batch, in_channels, len] becomes [batch, out_channels, out_len] by
    /// candle's convolution length formula.
    #[verifier::external_body]
    pub fn forward(&self, x: &Tensor) -> (r: Result<Tensor, PocketTTSError>)
        requires
            self.wf(),
            dims_of(*x).len() == 3 ==> dims_of(*x)[2] + 2 * self.spec_padding()
                >= self.spec_dilation() * (self.spec_kernel() - 1) + 1,
        ensures
            ({
                let d = dims_of(*x);
                self.on_cpu() && cpu_float(*x) && d.len() == 3 && d[1] == self.spec_in_channels()
            }) ==> r is Ok,
            r matches Ok(o) ==> ({
                let d = dims_of(*x);
                &&& d.len() == 3
                &&& d[1] == self.spec_in_channels()
                &&& dims_of(o) == seq![d[0], self.spec_out_channels(), self.spec_out_len(d[2])]
                &&& (self.on_cpu() && cpu_float(*x) ==> cpu_float(o))
            }),
    {
        self.inner.forward(x).map_err(|e| PocketTTSError::InferenceFailed(e.to_string()))
    }
}

/// Causal 1-d convolution: left-only padding of `(kernel_size-1)*dilation`,
/// with trailing output trimmed back to the input length.
pub struct CausalConv1d {
    pub(crate) conv: Conv1dLayer,
}

impl CausalConv1d {
    /// A unit-stride convolution whose padding is the causal amount.
    pub closed spec fn wf(self) -> bool {
        &&& self.conv.wf()
        &&& self.conv.spec_stride() == 1
        &&& self.conv.spec_padding() == (self.conv.spec_kernel() - 1) * self.conv.spec_dilation()
    }

    pub closed spec fn spec_in_channels(self) -> int {
        self.conv.spec_in_channels()
    }

    pub closed spec fn spec_out_channels(self) -> int {
        self.conv.spec_out_channels()
    }

    /// Are the kernel and bias 32-bit floats on the processor?
    pub closed spec fn on_cpu(self) -> bool {
        self.conv.on_cpu()
    }

    /// Build the underlying convolution with causal padding.
    pub fn new(
        in_channels: usize,
        out_channels: usize,
        kernel_size: usize,
        stride: usize,
        dilation: usize,
        ws: &WeightStore,
    ) -> (r: Result<CausalConv1d, PocketTTSError>)
        requires
            kernel_size >= 1,
            stride == 1,
            dilation >= 1,
            (kernel_size - 1) * dilation <= usize::MAX,
        ensures
            r matches Ok(c) ==> c.wf() && c.spec_in_channels() == in_channels
                && c.spec_out_channels() == out_channels && c.on_cpu() == crate::tensors::cpu_store(
                *ws,
            ),
            r matches Err(e) ==> e is ModelLoadFailed,
    {
        let causal_padding = (kernel_size - 1) * dilation;
        let conv = Conv1dLayer::new_with_dilation(
            in_channels,
            out_channels,
            kernel_size,
            stride,
            causal_padding,
            dilation,
            ws,
        )?;
        Ok(CausalConv1d { conv })
    }

    /// Convolve and trim any trailing output beyond the input length, so the
    /// sequence length is preserved exactly.
    pub fn forward(&self, x: &Tensor) -> (r: Result<Tensor, PocketTTSError>)
        requires
            self.wf(),
            dims_of(*x).len() == 3,
            dims_of(*x)[2] >= 1,
        ensures
            (self.on_cpu() && cpu_float(*x) && dims_of(*x)[1] == self.spec_in_channels()) ==> r
                is Ok,
            r matches Ok(o) ==> dims_of(*x)[1] == self.spec_in_channels() && dims_of(o) == seq![
                dims_of(*x)[0],
                self.spec_out_channels(),
                dims_of(*x)[2],
            ] && (self.on_cpu() && cpu_float(*x) ==> cpu_float(o)),
    {
        let xd = crate::tensors::tensor_dims(x);
        let seq_len = xd[2];
        proof {
            assert(dims_of(*x)[2] + 2 * self.conv.spec_padding() >= self.conv.spec_dilation() * (
            self.conv.spec_kernel() - 1) + 1 && dims_of(*x)[2] <= conv1d_out_len(
                dims_of(*x)[2],
                self.conv.spec_kernel(),
                self.conv.spec_padding(),
                1,
                self.conv.spec_dilation(),
            )) by (nonlinear_arith)
                requires
                    self.conv.spec_kernel() >= 1,
                    self.conv.spec_dilation() >= 1,
                    self.conv.spec_padding() == (self.conv.spec_kernel() - 1)
                        * self.conv.spec_dilation(),
                    dims_of(*x)[2] >= 1,
            ;
        }
        let y = self.conv.forward(x)?;
        let trimmed = tensor_narrow(&y, 2, 0, seq_len)?;
        proof {
            assert(dims_of(trimmed) =~= seq![
                dims_of(*x)[0],
                self.spec_out_channels(),
                dims_of(*x)[2],
            ]);
        }
        Ok(trimmed)
    }
}

/// Transposed 1-d convolution (upsampling).
pub struct ConvTranspose1dLayer {
    pub(crate) inner: candle_nn::ConvTranspose1d,
    pub(crate) in_channels: usize,
    pub(crate) out_channels: usize,
    pub(crate) kernel_size: usize,
    pub(crate) stride: usize,
    pub(crate) padding: usize,
    pub(crate) cpu: bool,
}

impl ConvTranspose1dLayer {
    pub closed spec fn wf(self) -> bool {
        &&& self.kernel_size >= 1
        &&& self.stride >= 1
    }

    /// The length `forward` gives a rank-three input of length `l`.
    pub open spec fn spec_out_len(self, l: int) -> int {
        conv_transpose1d_out_len(
            l,
            self.spec_kernel(),
            self.spec_padding(),
            self.spec_stride(),
            1,
            0,
        )
    }

    pub closed spec fn spec_in_channels(self) -> int {
        self.in_channels as int
    }

    pub closed spec fn spec_out_channels(self) -> int {
        self.out_channels as int
    }

    pub closed spec fn spec_kernel(self) -> int {
        self.kernel_size as int
    }

    pub closed spec fn spec_stride(self) -> int {
        self.stride as int
    }

    pub closed spec fn spec_padding(self) -> int {
        self.padding as int
    }

    /// Are the kernel and bias 32-bit floats on the processor?
    pub closed spec fn on_cpu(self) -> bool {
        self.cpu
    }

    /// Relies on candle_nn's conv_transpose1d: an upsampling convolution of
    /// the given geometry, its kernel and bias drawn from the store.
    #[verifier::external_body]
    pub fn new(
        in_channels: usize,
        out_channels: usize,
        kernel_size: usize,
        stride: usize,
        padding: usize,
        ws: &WeightStore,
    ) -> (r: Result<ConvTranspose1dLayer, PocketTTSError>)
        requires
            kernel_size >= 1,
            stride >= 1,
        ensures
            r matches Ok(c) ==> ({
                &&& c.wf()
                &&& c.spec_in_channels() == in_channels
                &&& c.spec_out_channels() == out_channels
                &&& c.spec_kernel() == kernel_size
                &&& c.spec_stride() == stride
                &&& c.spec_padding() == padding
                &&& c.on_cpu() == crate::tensors::cpu_store(*ws)
            }),
            r matches Err(e) ==> e is ModelLoadFailed,
    {
        let config = candle_nn::ConvTranspose1dConfig { padding, output_padding: 0, stride, dilation: 1, groups: 1 };
        let cpu = ws.vb.device().is_cpu() && ws.vb.dtype() == candle_core::DType::F32;
        match candle_nn::conv_transpose1d(in_channels, out_channels, kernel_size, config, ws.vb.clone()) {
            Ok(inner) => Ok(ConvTranspose1dLayer { inner, in_channels, out_channels, kernel_size, stride, padding, cpu }),
            Err(e) => Err(PocketTTSError::ModelLoadFailed(e.to_string())),
        }
    }

    /// Relies on candle_nn's ConvTranspose1d::forward: a rank-three input
    /// [batch, in_channels, len] becomes [batch, out_channels, out_len] by
    /// candle's transposed-convolution length formula.
    #[verifier::external_body]
    pub fn forward(&self, x: &Tensor) -> (r: Result<Tensor, PocketTTSError>)
        requires
            self.wf(),
            dims_of(*x).len() == 3 ==> dims_of(*x)[2] >= 1 && (dims_of(*x)[2] - 1)
                * self.spec_stride() >= 2 * self.spec_padding(),
        ensures
            ({
                let d = dims_of(*x);
                self.on_cpu() && cpu_float(*x) && d.len() == 3 && d[1] == self.spec_in_channels()
            }) ==> r is Ok,
            r matches Ok(o) ==> ({
                let d = dims_of(*x);
                &&& d.len() == 3
                &&& d[1] == self.spec_in_channels()
                &&& dims_of(o) == seq![d[0], self.spec_out_channels(), self.spec_out_len(d[2])]
                &&& (self.on_cpu() && cpu_float(*x) ==> cpu_float(o))
            }),
    {
        self.inner.forward(x).map_err(|e| PocketTTSError::InferenceFailed(e.to_string()))
    }
}

/// SEANet encoder block: two causal convolutions with gelus, then a strided
/// downsampling convolution.
pub struct SEANetEncoderBlock {
    pub(crate) conv1: CausalConv1d,
    pub(crate) conv2: CausalConv1d,
    pub(crate) downsample: Conv1dLayer,
}

impl SEANetEncoderBlock {
    pub closed spec fn wf(self) -> bool {
        &&& self.conv1.wf()
        &&& self.conv2.wf()
        &&& self.downsample.wf()
        &&& self.downsample.spec_dilation() == 1
        &&& self.conv1.spec_out_channels() == self.conv2.spec_in_channels()
        &&& self.conv2.spec_out_channels() == self.downsample.spec_in_channels()
    }

    /// The channel count the block takes in.
    pub closed spec fn spec_in_channels(self) -> int {
        self.conv1.spec_in_channels()
    }

    /// Are all three kernels 32-bit floats on the processor?
    pub closed spec fn on_cpu(self) -> bool {
        self.conv1.on_cpu() && self.conv2.on_cpu() && self.downsample.on_cpu()
    }

    /// Build the two causal convolutions and the downsampler.
    pub fn new(
        in_channels: usize,
        out_channels: usize,
        kernel_size: usize,
        stride: usize,
        ws: &WeightStore,
    ) -> (r: Result<SEANetEncoderBlock, PocketTTSError>)
        requires
            kernel_size >= 1,
            stride >= 2,
            2 * stride <= usize::MAX,
        ensures
            r matches Ok(b) ==> b.wf() && b.spec_in_channels() == in_channels && b.on_cpu()
                == crate::tensors::cpu_store(*ws),
            r matches Err(e) ==> e is ModelLoadFailed,
    {
        let conv1 = CausalConv1d::new(in_channels, out_channels, kernel_size, 1, 1, &ws.sub("conv1"))?;
        let conv2 = CausalConv1d::new(out_channels, out_channels, kernel_size, 1, 1, &ws.sub("conv2"))?;
        let downsample = Conv1dLayer::new(
            out_channels,
            out_channels,
            stride * 2,
            stride,
            stride / 2,
            &ws.sub("downsample"),
        )?;
        Ok(SEANetEncoderBlock { conv1, conv2, downsample })
    }

    /// Is an input of length `l` long enough for the downsampler?
    pub closed spec fn len_ok(self, l: int) -> bool {
        l + 2 * self.downsample.spec_padding() >= self.downsample.spec_kernel()
    }

    /// Two causal convolutions with gelus, then the downsampler.
    pub fn forward(&self, x: &Tensor) -> (r: Result<Tensor, PocketTTSError>)
        requires
            self.wf(),
            dims_of(*x).len() == 3,
            1 <= dims_of(*x)[2],
            self.len_ok(dims_of(*x)[2]),
        ensures
            (self.on_cpu() && cpu_float(*x) && dims_of(*x)[1] == self.spec_in_channels()) ==> r
                is Ok,
            r matches Ok(o) ==> dims_of(o).len() == 3 && dims_of(o)[0] == dims_of(*x)[0],
    {
        let h = self.conv1.forward(x)?;
        let h = tensor_gelu(&h)?;
        let h = self.conv2.forward(&h)?;
        let h = tensor_gelu(&h)?;
        self.downsample.forward(&h)
    }
}

/// SEANet decoder block: a transposed upsampling convolution, then two causal
/// convolutions with gelus.
pub struct SEANetDecoderBlock {
    pub(crate) upsample: ConvTranspose1dLayer,
    pub(crate) conv1: CausalConv1d,
    pub(crate) conv2: CausalConv1d,
}

impl SEANetDecoderBlock {
    /// The upsampler's geometry is twice its stride with half-stride padding,
    /// and the causal convolutions keep its channel count.
    pub closed spec fn wf(self) -> bool {
        &&& self.upsample.wf()
        &&& self.conv1.wf()
        &&& self.conv2.wf()
        &&& self.upsample.spec_kernel() == 2 * self.upsample.spec_stride()
        &&& self.upsample.spec_padding() == self.upsample.spec_stride() / 2
        &&& self.conv1.spec_in_channels() == self.upsample.spec_out_channels()
        &&& self.conv1.spec_out_channels() == self.upsample.spec_out_channels()
        &&& self.conv2.spec_in_channels() == self.upsample.spec_out_channels()
        &&& self.conv2.spec_out_channels() == self.upsample.spec_out_channels()
    }

    pub closed spec fn spec_in_channels(self) -> int {
        self.upsample.spec_in_channels()
    }

    pub closed spec fn spec_out_channels(self) -> int {
        self.upsample.spec_out_channels()
    }

    /// The length this block makes of an input length `l`.
    pub closed spec fn spec_out_len(self, l: int) -> int {
        self.upsample.spec_out_len(l)
    }

    pub closed spec fn spec_stride(self) -> int {
        self.upsample.spec_stride()
    }

    /// Are all three kernels 32-bit floats on the processor?
    pub closed spec fn on_cpu(self) -> bool {
        self.upsample.on_cpu() && self.conv1.on_cpu() && self.conv2.on_cpu()
    }

    /// The block's length formula, written out: a transposed convolution
    /// whose kernel is twice the stride with half-stride padding.
    pub proof fn lemma_out_len(self, l: int)
        requires
            self.wf(),
        ensures
            self.spec_out_len(l) == conv_transpose1d_out_len(
                l,
                2 * self.spec_stride(),
                self.spec_stride() / 2,
                self.spec_stride(),
                1,
                0,
            ),
    {
    }

    /// Build the upsampler and the two causal convolutions.
    pub fn new(
        in_channels: usize,
        out_channels: usize,
        kernel_size: usize,
        stride: usize,
        ws: &WeightStore,
    ) -> (r: Result<SEANetDecoderBlock, PocketTTSError>)
        requires
            kernel_size >= 1,
            stride >= 1,
            2 * stride <= usize::MAX,
        ensures
            r matches Ok(b) ==> b.wf() && b.spec_in_channels() == in_channels
                && b.spec_out_channels() == out_channels && b.spec_stride() == stride && b.on_cpu()
                == crate::tensors::cpu_store(*ws),
            r matches Err(e) ==> e is ModelLoadFailed,
    {
        let upsample = ConvTranspose1dLayer::new(
            in_channels,
            out_channels,
            stride * 2,
            stride,
            stride / 2,
            &ws.sub("upsample"),
        )?;
        let conv1 = CausalConv1d::new(out_channels, out_channels, kernel_size, 1, 1, &ws.sub("conv1"))?;
        let conv2 = CausalConv1d::new(out_channels, out_channels, kernel_size, 1, 1, &ws.sub("conv2"))?;
        Ok(SEANetDecoderBlock { upsample, conv1, conv2 })
    }

    /// Upsample, then refine through the two causal convolutions; the length
    /// grows by the block's transposed-convolution formula.
    pub fn forward(&self, x: &Tensor) -> (r: Result<Tensor, PocketTTSError>)
        requires
            self.wf(),
            dims_of(*x).len() == 3,
            dims_of(*x)[2] >= 2,
        ensures
            (self.on_cpu() && cpu_float(*x) && dims_of(*x)[1] == self.spec_in_channels()) ==> r
                is Ok,
            r matches Ok(o) ==> dims_of(*x)[1] == self.spec_in_channels() && dims_of(o) == seq![
                dims_of(*x)[0],
                self.spec_out_channels(),
                self.spec_out_len(dims_of(*x)[2]),
            ] && dims_of(o)[2] >= 2 && (self.on_cpu() && cpu_float(*x) ==> cpu_float(o)),
    {
        proof {
            let l = dims_of(*x)[2];
            let s = self.upsample.spec_stride();
            assert(2 * (s / 2) <= s);
            assert((l - 1) * s >= s) by (nonlinear_arith)
                requires
                    l >= 2,
                    s >= 1,
            ;
        }
        let up = self.upsample.forward(x)?;
        proof {
            let l = dims_of(*x)[2];
            let s = self.upsample.spec_stride();
            let k = self.upsample.spec_kernel();
            let p = self.upsample.spec_padding();
            assert(dims_of(up)[2] == (l - 1) * s - 2 * p + (k - 1) + 1);
            assert(dims_of(up)[2] >= l * s) by (nonlinear_arith)
                requires
                    dims_of(up)[2] == (l - 1) * s - 2 * p + (k - 1) + 1,
                    k == 2 * s,
                    2 * p <= s,
                    l >= 2,
                    s >= 1,
            ;
            assert(dims_of(up)[2] >= 2) by (nonlinear_arith)
                requires
                    dims_of(up)[2] >= l * s,
                    l >= 2,
                    s >= 1,
            ;
        }
        let h = self.conv1.forward(&up)?;
        let h = tensor_gelu(&h)?;
        let h = self.conv2.forward(&h)?;
        let out = tensor_gelu(&h)?;
        proof {
            assert(dims_of(out) =~= seq![
                dims_of(*x)[0],
                self.spec_out_channels(),
                self.spec_out_len(dims_of(*x)[2]),
            ]);
        }
        Ok(out)
    }
}

} // verus!
