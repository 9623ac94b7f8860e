//! SEANet decoder: latent frames to waveform through an input causal
//! convolution, a cascade of upsampling blocks, an output causal convolution
//! to one channel, and a bounding tanh.

use vstd::prelude::*;
use vstd::string::StringExecFns;

use candle_core::Tensor;

use crate::error::PocketTTSError;
use crate::modules::conv::CausalConv1d;
use crate::modules::conv::SEANetDecoderBlock;
use crate::tensors::conv_transpose1d_out_len;
use crate::tensors::cpu_float;
use crate::tensors::cpu_store;
use crate::tensors::dims_of;
use crate::tensors::tensor_gelu;
use crate::tensors::tensor_squeeze;
use crate::tensors::tensor_tanh;
use crate::tensors::tensor_transpose;
use crate::tensors::WeightStore;

verus! {

/// SEANet decoder configuration.
#[derive(Debug, Clone)]
pub struct SEANetConfig {
    pub latent_dim: usize,
    pub channels: Vec<usize>,
    pub kernel_sizes: Vec<usize>,
    pub strides: Vec<usize>,
    pub sample_rate: usize,
}

impl SEANetConfig {
    /// What building a decoder needs: one channel list entry per stage, and
    /// positive kernels and strides for every upsampling block.
    pub open spec fn valid(self) -> bool {
        &&& 1 <= self.channels@.len()
        &&& self.channels@.len() - 1 <= self.kernel_sizes@.len()
        &&& self.channels@.len() - 1 <= self.strides@.len()
        &&& forall|i: int|
            0 <= i < self.channels@.len() - 1 ==> 1 <= (#[trigger] self.kernel_sizes@[i])
        &&& forall|i: int|
            0 <= i < self.channels@.len() - 1 ==> 1 <= (#[trigger] self.strides@[i])
                && 2 * self.strides@[i] <= usize::MAX
    }

    /// The strides of the upsampling blocks, one per channel transition.
    pub open spec fn block_strides(self) -> Seq<int> {
        self.strides@.take(self.channels@.len() - 1).map_values(|s: usize| s as int)
    }
}

impl Default for SEANetConfig {
    /// The reference decoder: five channel stages and four upsampling blocks.
    fn default() -> (c: SEANetConfig)
        ensures
            c.valid(),
            c.latent_dim == 512,
            c.channels@ == seq![512usize, 256usize, 128usize, 64usize, 32usize],
            c.kernel_sizes@ == seq![7usize, 7usize, 7usize, 7usize, 7usize],
            c.strides@ == seq![8usize, 5usize, 4usize, 2usize, 2usize],
            c.sample_rate == 24000,
    {
        let c = SEANetConfig {
            latent_dim: 512,
            channels: vec![512, 256, 128, 64, 32],
            kernel_sizes: vec![7, 7, 7, 7, 7],
            strides: vec![8, 5, 4, 2, 2],
            sample_rate: 24000,
        };
        proof {
            assert(c.channels@ =~= seq![512usize, 256usize, 128usize, 64usize, 32usize]);
            assert(c.kernel_sizes@ =~= seq![7usize, 7usize, 7usize, 7usize, 7usize]);
            assert(c.strides@ =~= seq![8usize, 5usize, 4usize, 2usize, 2usize]);
        }
        c
    }
}

/// The length a cascade of upsampling blocks with these strides makes of an
/// input length `l`: each block applies its transposed convolution (kernel
/// twice the stride, padding half of it).
pub open spec fn seanet_out_len(strides: Seq<int>, l: int) -> int
    decreases strides.len(),
{
    if strides.len() == 0 {
        l
    } else {
        seanet_out_len(
            strides.drop_first(),
            conv_transpose1d_out_len(l, 2 * strides[0], strides[0] / 2, strides[0], 1, 0),
        )
    }
}

/// Appending one more block applies its length formula last.
pub proof fn lemma_seanet_out_len_push(strides: Seq<int>, s: int, l: int)
    ensures
        seanet_out_len(strides.push(s), l) == conv_transpose1d_out_len(
            seanet_out_len(strides, l),
            2 * s,
            s / 2,
            s,
            1,
            0,
        ),
    decreases strides.len(),
{
    let p = strides.push(s);
    if strides.len() == 0 {
        assert(p[0] == s);
        assert(p.drop_first() =~= Seq::<int>::empty());
        assert(seanet_out_len(p, l) == seanet_out_len(
            Seq::<int>::empty(),
            conv_transpose1d_out_len(l, 2 * s, s / 2, s, 1, 0),
        ));
    } else {
        assert(p[0] == strides[0]);
        assert(p.drop_first() =~= strides.drop_first().push(s));
        lemma_seanet_out_len_push(
            strides.drop_first(),
            s,
            conv_transpose1d_out_len(l, 2 * strides[0], strides[0] / 2, strides[0], 1, 0),
        );
        assert(seanet_out_len(p, l) == seanet_out_len(
            strides.drop_first().push(s),
            conv_transpose1d_out_len(l, 2 * strides[0], strides[0] / 2, strides[0], 1, 0),
        ));
    }
}

/// The product of a stride list.
pub open spec fn strides_product(strides: Seq<int>) -> int
    decreases strides.len(),
{
    if strides.len() == 0 {
        1
    } else {
        strides[0] * strides_product(strides.drop_first())
    }
}

/// Appending one more stride multiplies the product.
pub proof fn lemma_strides_product_push(strides: Seq<int>, s: int)
    ensures
        strides_product(strides.push(s)) == strides_product(strides) * s,
    decreases strides.len(),
{
    let p = strides.push(s);
    if strides.len() == 0 {
        assert(p[0] == s);
        assert(p.drop_first() =~= Seq::<int>::empty());
        assert(strides_product(p) == s * strides_product(Seq::<int>::empty()));
    } else {
        assert(p[0] == strides[0]);
        assert(p.drop_first() =~= strides.drop_first().push(s));
        lemma_strides_product_push(strides.drop_first(), s);
        assert(strides_product(p) == strides[0] * strides_product(strides.drop_first().push(s)));
        assert(strides[0] * (strides_product(strides.drop_first()) * s) == (strides[0]
            * strides_product(strides.drop_first())) * s) by (nonlinear_arith);
    }
}

/// A prefix of a positive stride list divides the whole product's size.
pub proof fn lemma_strides_product_prefix(strides: Seq<int>, i: int)
    requires
        0 <= i <= strides.len(),
        forall|j: int| 0 <= j < strides.len() ==> 1 <= #[trigger] strides[j],
    ensures
        1 <= strides_product(strides.take(i)),
        strides_product(strides.take(i)) <= strides_product(strides),
    decreases strides.len() - i,
{
    if i == strides.len() {
        assert(strides.take(i) =~= strides);
        lemma_strides_product_pos(strides);
    } else {
        lemma_strides_product_prefix(strides, i + 1);
        assert(strides.take(i + 1) =~= strides.take(i).push(strides[i]));
        lemma_strides_product_push(strides.take(i), strides[i]);
        lemma_strides_product_pos(strides.take(i));
        assert(strides_product(strides.take(i)) <= strides_product(strides.take(i)) * strides[i])
            by (nonlinear_arith)
            requires
                1 <= strides_product(strides.take(i)),
                1 <= strides[i],
        ;
    }
}

/// A product of positive strides is positive.
pub proof fn lemma_strides_product_pos(strides: Seq<int>)
    requires
        forall|j: int| 0 <= j < strides.len() ==> 1 <= #[trigger] strides[j],
    ensures
        1 <= strides_product(strides),
    decreases strides.len(),
{
    if strides.len() > 0 {
        lemma_strides_product_pos(strides.drop_first());
        assert(1 <= strides[0] * strides_product(strides.drop_first())) by (nonlinear_arith)
            requires
                1 <= strides[0],
                1 <= strides_product(strides.drop_first()),
        ;
    }
}

/// Law: with the reference decoder's block strides, the cascade turns `l`
/// latent frames into exactly `320 l + 8` samples, so the sample count is
/// the frame count times the upsampling ratio, plus a fixed eight-sample
/// edge from the odd-stride block.
pub proof fn lemma_default_block_lengths(l: int)
    ensures
        seanet_out_len(seq![8int, 5int, 4int, 2int], l) == 320 * l + 8,
        strides_product(seq![8int, 5int, 4int, 2int]) == 320,
{
    let s = seq![8int, 5int, 4int, 2int];
    assert(s.drop_first() =~= seq![5int, 4int, 2int]);
    assert(seq![5int, 4int, 2int].drop_first() =~= seq![4int, 2int]);
    assert(seq![4int, 2int].drop_first() =~= seq![2int]);
    assert(seq![2int].drop_first() =~= Seq::<int>::empty());
    let l1 = conv_transpose1d_out_len(l, 16, 4, 8, 1, 0);
    assert(l1 == 8 * l);
    let l2 = conv_transpose1d_out_len(l1, 10, 2, 5, 1, 0);
    assert(l2 == 40 * l + 1);
    let l3 = conv_transpose1d_out_len(l2, 8, 2, 4, 1, 0);
    assert(l3 == 160 * l + 4);
    let l4 = conv_transpose1d_out_len(l3, 4, 1, 2, 1, 0);
    assert(l4 == 320 * l + 8);
    assert(seanet_out_len(Seq::<int>::empty(), l4) == l4);
    assert(seanet_out_len(seq![2int], l3) == l4);
    assert(seanet_out_len(seq![4int, 2int], l2) == seanet_out_len(seq![2int], l3));
    assert(seanet_out_len(seq![5int, 4int, 2int], l1) == seanet_out_len(seq![4int, 2int], l2));
    assert(seanet_out_len(s, l) == seanet_out_len(seq![5int, 4int, 2int], l1));
    assert(strides_product(Seq::<int>::empty()) == 1);
    assert(strides_product(seq![2int]) == 2);
    assert(strides_product(seq![4int, 2int]) == 8);
    assert(strides_product(seq![5int, 4int, 2int]) == 40);
    assert(strides_product(s) == 320);
}

/// SEANet decoder.
pub struct SEANetDecoder {
    config: SEANetConfig,
    input_conv: CausalConv1d,
    blocks: Vec<SEANetDecoderBlock>,
    output_conv: CausalConv1d,
}

impl SEANetDecoder {
    /// Blocks follow the channel list and stride list of the configuration.
    pub closed spec fn wf(self) -> bool {
        &&& self.config.valid()
        &&& self.input_conv.wf()
        &&& self.input_conv.spec_in_channels() == self.config.latent_dim
        &&& self.input_conv.spec_out_channels() == self.config.channels@[0]
        &&& self.blocks@.len() == self.config.channels@.len() - 1
        &&& forall|i: int|
            0 <= i < self.blocks@.len() ==> (#[trigger] self.blocks@[i]).wf()
                && self.blocks@[i].spec_in_channels() == self.config.channels@[i]
                && self.blocks@[i].spec_out_channels() == self.config.channels@[i + 1]
                && self.blocks@[i].spec_stride() == self.config.strides@[i]
        &&& self.output_conv.wf()
        &&& self.output_conv.spec_in_channels() == self.config.channels@[self.config.channels@.len()
            - 1]
        &&& self.output_conv.spec_out_channels() == 1
    }

    /// The configuration the decoder was built with.
    pub closed spec fn spec_config(self) -> SEANetConfig {
        self.config
    }

    /// Are all kernels 32-bit floats on the processor?
    pub closed spec fn on_cpu(self) -> bool {
        &&& self.input_conv.on_cpu()
        &&& self.output_conv.on_cpu()
        &&& forall|i: int| 0 <= i < self.blocks@.len() ==> (#[trigger] self.blocks@[i]).on_cpu()
    }

    /// The number of samples `forward` makes of `l` latent frames.
    pub open spec fn spec_out_samples(self, l: int) -> int {
        seanet_out_len(self.spec_config().block_strides(), l)
    }

    /// Build the input projection, the upsampling blocks, and the output
    /// projection from the store.
    pub fn new(config: SEANetConfig, ws: &WeightStore) -> (r: Result<SEANetDecoder, PocketTTSError>)
        requires
            config.valid(),
        ensures
            r matches Ok(d) ==> d.wf() && d.spec_config() == config && (cpu_store(*ws)
                ==> d.on_cpu()),
            r matches Err(e) ==> e is ModelLoadFailed,
    {
        let input_conv = CausalConv1d::new(
            config.latent_dim,
            config.channels[0],
            7,
            1,
            1,
            &ws.sub("input_conv"),
        )?;
        let blocks_ws = ws.sub("blocks");
        let n_blocks = config.channels.len() - 1;
        let mut blocks: Vec<SEANetDecoderBlock> = Vec::new();
        let mut i: usize = 0;
        while i < n_blocks
            invariant
                i <= n_blocks,
                config.valid(),
                cpu_store(blocks_ws) == cpu_store(*ws),
                forall|j: int|
                    0 <= j < i ==> ((#[trigger] blocks@[j]).on_cpu() == cpu_store(*ws)),
                n_blocks == config.channels@.len() - 1,
                n_blocks <= 0xffff_ffff_ffff_ffff,
                blocks@.len() == i,
                forall|j: int|
                    0 <= j < i ==> (#[trigger] blocks@[j]).wf() && blocks@[j].spec_in_channels()
                        == config.channels@[j] && blocks@[j].spec_out_channels()
                        == config.channels@[j + 1] && blocks@[j].spec_stride()
                        == config.strides@[j],
            decreases n_blocks - i,
        {
            if i >= 4294967295 {
                return Err(
                    PocketTTSError::ModelLoadFailed(
                        String::from_str("too many decoder blocks"),
                    ),
                );
            }
            let name = crate::error::u32_to_decimal(i as u32);
            let block = SEANetDecoderBlock::new(
                config.channels[i],
                config.channels[i + 1],
                config.kernel_sizes[i],
                config.strides[i],
                &blocks_ws.sub(name.as_str()),
            )?;
            blocks.push(block);
            i = i + 1;
        }
        let last = config.channels[config.channels.len() - 1];
        let output_conv = CausalConv1d::new(last, 1, 7, 1, 1, &ws.sub("output_conv"))?;
        Ok(SEANetDecoder { config, input_conv, blocks, output_conv })
    }

    /// Decode latent frames [batch, seq, latent_dim] to a waveform
    /// [batch, samples], where the sample count follows the blocks' length
    /// formulas; the tanh bounds the samples.
    pub fn forward(&self, latents: &Tensor) -> (r: Result<Tensor, PocketTTSError>)
        requires
            self.wf(),
            dims_of(*latents).len() == 3,
            dims_of(*latents)[1] >= 2,
        ensures
            (self.on_cpu() && cpu_float(*latents) && dims_of(*latents)[2]
                == self.spec_config().latent_dim) ==> r is Ok,
            r matches Ok(o) ==> dims_of(o) == seq![
                dims_of(*latents)[0],
                self.spec_out_samples(dims_of(*latents)[1]),
            ] && (self.on_cpu() && cpu_float(*latents) ==> cpu_float(o)),
    {
        let ghost fine = self.on_cpu() && cpu_float(*latents) && dims_of(*latents)[2]
            == self.spec_config().latent_dim;
        let ghost ld = dims_of(*latents);
        let ghost bs = self.config.block_strides();

        // channel-major layout for convolution
        let x = tensor_transpose(latents, 1, 2)?;
        let mut x = self.input_conv.forward(&x)?;
        x = tensor_gelu(&x)?;
        proof {
            assert(bs.len() == self.blocks@.len());
            assert(bs.take(0) =~= Seq::<int>::empty());
            assert(dims_of(x) =~= seq![ld[0], self.config.channels@[0] as int, seanet_out_len(
                bs.take(0),
                ld[1],
            )]);
        }

        let n = self.blocks.len();
        let mut i: usize = 0;
        while i < n
            invariant
                self.wf(),
                i <= n,
                n == self.blocks@.len(),
                bs == self.config.block_strides(),
                ld == dims_of(*latents),
                ld[1] >= 2,
                fine == (self.on_cpu() && cpu_float(*latents) && dims_of(*latents)[2]
                    == self.spec_config().latent_dim),
                dims_of(x) == seq![ld[0], self.config.channels@[i as int] as int, seanet_out_len(
                    bs.take(i as int),
                    ld[1],
                )],
                dims_of(x)[2] >= 2,
                fine ==> cpu_float(x),
            decreases n - i,
        {
            let ghost pre = dims_of(x);
            proof {
                assert(bs[i as int] == self.config.strides@[i as int] as int);
            }
            x = self.blocks[i].forward(&x)?;
            proof {
                assert(bs.take(i + 1) =~= bs.take(i as int).push(bs[i as int]));
                lemma_seanet_out_len_push(bs.take(i as int), bs[i as int], ld[1]);
                self.blocks@[i as int].lemma_out_len(pre[2]);
                assert(dims_of(x) =~= seq![
                    ld[0],
                    self.config.channels@[i + 1] as int,
                    seanet_out_len(bs.take(i + 1), ld[1]),
                ]);
            }
            i = i + 1;
        }

        proof {
            assert(bs.take(n as int) =~= bs);
        }
        let x = self.output_conv.forward(&x)?;
        let x = tensor_tanh(&x)?;
        let out = tensor_squeeze(&x, 1)?;
        proof {
            assert(dims_of(out) =~= seq![ld[0], self.spec_out_samples(ld[1])]);
        }
        Ok(out)
    }

    /// The upsampling ratio: the product of the upsampling blocks' strides
    /// (the nominal samples produced per latent frame).
    pub fn upsampling_ratio(&self) -> (r: usize)
        requires
            self.wf(),
            strides_product(self.spec_config().block_strides()) <= usize::MAX,
        ensures
            r == strides_product(self.spec_config().block_strides()),
    {
        let ghost bs = self.config.block_strides();
        proof {
            assert forall|j: int| 0 <= j < bs.len() implies 1 <= #[trigger] bs[j] by {
                assert(bs[j] == self.config.strides@[j] as int);
            }
        }
        let n = self.config.channels.len() - 1;
        let mut ratio: usize = 1;
        let mut i: usize = 0;
        while i < n
            invariant
                self.wf(),
                i <= n,
                bs == self.config.block_strides(),
                n == bs.len(),
                forall|j: int| 0 <= j < bs.len() ==> 1 <= #[trigger] bs[j],
                strides_product(bs) <= usize::MAX,
                ratio == strides_product(bs.take(i as int)),
            decreases n - i,
        {
            proof {
                assert(bs.take(i + 1) =~= bs.take(i as int).push(bs[i as int]));
                lemma_strides_product_push(bs.take(i as int), bs[i as int]);
                lemma_strides_product_prefix(bs, i + 1);
                assert(bs[i as int] == self.config.strides@[i as int] as int);
            }
            ratio = ratio * self.config.strides[i];
            i = i + 1;
        }
        proof {
            assert(bs.take(n as int) =~= bs);
        }
        ratio
    }

    /// The configuration the decoder was built with.
    pub fn config(&self) -> (r: &SEANetConfig)
        ensures
            *r == self.spec_config(),
    {
        &self.config
    }
}

} // verus!
