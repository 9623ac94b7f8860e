//! Trusted interface to the numeric-array library.
//!
//! The pipeline's arrays live in candle tensors.  A tensor's elements are
//! 32-bit floats and stay outside the verified model; what the pipeline's
//! logic reads and the contracts speak of is the shape, named `dims_of`.
//! Every function here relies on a candle operation and states what candle's
//! source shows about the shape of its result.

use vstd::prelude::*;

use crate::error::PocketTTSError;

use candle_core::Device;
use candle_core::Tensor;
use candle_nn::Module;

verus! {

#[verifier::external_type_specification]
#[verifier::external_body]
pub struct ExTensor(Tensor);

#[verifier::external_type_specification]
#[verifier::external_body]
pub struct ExDevice(Device);

#[verifier::external_type_specification]
#[verifier::external_body]
pub struct ExCandleError(candle_core::Error);

#[verifier::external_type_specification]
#[verifier::external_body]
pub struct ExLinear(candle_nn::Linear);

#[verifier::external_type_specification]
#[verifier::external_body]
pub struct ExEmbedding(candle_nn::Embedding);

#[verifier::external_type_specification]
#[verifier::external_body]
pub struct ExConv1d(candle_nn::Conv1d);

#[verifier::external_type_specification]
#[verifier::external_body]
pub struct ExConvTranspose1d(candle_nn::ConvTranspose1d);

/// The shape of a tensor: one extent per dimension.  A tensor holds floats,
/// which the verified model does not speak of; its shape is the model.
pub uninterp spec fn dims_of(t: Tensor) -> Seq<int>;

/// Does the tensor hold 32-bit floats on the processor device?  The tensors
/// of one pipeline all share this backing, and candle's kernels combine
/// exactly such tensors; the success clauses below are stated for them.
pub uninterp spec fn cpu_float(t: Tensor) -> bool;

/// Is the tensor an unsigned-integer token-id tensor on the processor device?
pub uninterp spec fn cpu_ids(t: Tensor) -> bool;

/// The token ids held by a tensor built from a row of ids.
pub uninterp spec fn ids_of(t: Tensor) -> Seq<u32>;

/// Is this the processor device?
pub uninterp spec fn is_cpu(d: Device) -> bool;

/// Does the store hand out 32-bit float arrays on the processor device?
pub uninterp spec fn cpu_store(ws: WeightStore) -> bool;

/// The number of elements a shape describes.
pub open spec fn elem_count(dims: Seq<int>) -> int
    decreases dims.len(),
{
    if dims.len() == 0 {
        1
    } else {
        dims[0] * elem_count(dims.drop_first())
    }
}

/// A three-extent shape holds the product of its extents.
pub proof fn lemma_elem_count3(a: int, b: int, c: int)
    ensures
        elem_count(seq![a, b, c]) == a * b * c,
{
    let s = seq![a, b, c];
    assert(s.drop_first() =~= seq![b, c]);
    assert(seq![b, c].drop_first() =~= seq![c]);
    assert(seq![c].drop_first() =~= Seq::<int>::empty());
    assert(elem_count(Seq::<int>::empty()) == 1);
    assert(elem_count(seq![c]) == c * 1);
    assert(elem_count(seq![b, c]) == b * (c * 1));
    assert(elem_count(s) == a * (b * (c * 1)));
    assert(a * (b * (c * 1)) == a * b * c) by (nonlinear_arith);
}

/// A four-extent shape holds the product of its extents.
pub proof fn lemma_elem_count4(a: int, b: int, c: int, d: int)
    ensures
        elem_count(seq![a, b, c, d]) == a * b * c * d,
{
    let s = seq![a, b, c, d];
    assert(s.drop_first() =~= seq![b, c, d]);
    lemma_elem_count3(b, c, d);
    assert(elem_count(s) == a * (b * c * d));
    assert(a * (b * c * d) == a * b * c * d) by (nonlinear_arith);
}

/// Output length of a 1-d convolution, as candle computes it.
pub open spec fn conv1d_out_len(l: int, k: int, pad: int, stride: int, dil: int) -> int {
    (l + 2 * pad - dil * (k - 1) - 1) / stride + 1
}

/// Output length of a transposed 1-d convolution, as candle computes it.
pub open spec fn conv_transpose1d_out_len(
    l: int,
    k: int,
    pad: int,
    stride: int,
    dil: int,
    out_pad: int,
) -> int {
    (l - 1) * stride - 2 * pad + dil * (k - 1) + out_pad + 1
}

/// Can two shapes be broadcast against each other (aligned from the right,
/// equal extents or an extent of one)?
pub open spec fn bcast_ok(a: Seq<int>, b: Seq<int>) -> bool {
    forall|i: int|
        0 <= i < a.len() && 0 <= i < b.len() ==> ({
            let x = #[trigger] a[a.len() - 1 - i];
            let y = b[b.len() - 1 - i];
            x == y || x == 1 || y == 1
        })
}

/// The broadcast shape of two compatible shapes.
pub open spec fn bcast_join(a: Seq<int>, b: Seq<int>) -> Seq<int> {
    let n = if a.len() < b.len() {
        b.len() as int
    } else {
        a.len() as int
    };
    Seq::new(n as nat, |i: int|
        {
            let r = n - 1 - i;
            let x = if r < a.len() {
                a[a.len() - 1 - r]
            } else {
                1
            };
            let y = if r < b.len() {
                b[b.len() - 1 - r]
            } else {
                1
            };
            if x == 1 {
                y
            } else {
                x
            }
        },
    )
}

/// Broadcasting `b` into `a`: when, aligned from the right, each extent of
/// `b` is one or equals `a`'s, the join is `a` itself.
pub proof fn lemma_bcast_into(a: Seq<int>, b: Seq<int>)
    requires
        b.len() <= a.len(),
        forall|i: int|
            0 <= i < b.len() ==> #[trigger] b[b.len() - 1 - i] == 1 || b[b.len() - 1 - i] == a[a.len()
                - 1 - i],
    ensures
        bcast_ok(a, b),
        bcast_join(a, b) =~= a,
{
    assert forall|i: int| 0 <= i < a.len() implies bcast_join(a, b)[i] == a[i] by {
        let r = a.len() - 1 - i;
        if r < b.len() {
            assert(b[b.len() - 1 - r] == 1 || b[b.len() - 1 - r] == a[i]);
        }
    }
    assert forall|i: int| 0 <= i < a.len() && 0 <= i < b.len() implies ({
        let x = #[trigger] a[a.len() - 1 - i];
        let y = b[b.len() - 1 - i];
        x == y || x == 1 || y == 1
    }) by {
        assert(b[b.len() - 1 - i] == 1 || b[b.len() - 1 - i] == a[a.len() - 1 - i]);
    }
}

/// Broadcasting a one-element last extent against a vector: the last extent
/// becomes the vector's length.
pub proof fn lemma_bcast_last_one(a: Seq<int>, m: int)
    requires
        a.len() >= 1,
        a[a.len() - 1] == 1,
    ensures
        bcast_ok(a, seq![m]),
        bcast_join(a, seq![m]) =~= a.update(a.len() - 1, m),
{
    let b = seq![m];
    assert forall|i: int| 0 <= i < a.len() implies bcast_join(a, b)[i] == a.update(
        a.len() - 1,
        m,
    )[i] by {
        let r = a.len() - 1 - i;
        if r == 0 {
            assert(a[a.len() - 1] == 1);
        }
    }
}

/// Relies on candle's Tensor::clone: the same tensor.
#[verifier::external_body]
pub(crate) fn tensor_clone(t: &Tensor) -> (r: Tensor)
    ensures
        r == *t,
{
    t.clone()
}

/// Relies on candle's Tensor::device: the device holding the tensor; for a
/// processor-backed tensor that is the processor.
#[verifier::external_body]
pub(crate) fn tensor_device(t: &Tensor) -> (d: Device)
    ensures
        cpu_float(*t) || cpu_ids(*t) ==> is_cpu(d),
{
    t.device().clone()
}

/// Relies on candle's Device::Cpu: the processor-backed device.
#[verifier::external_body]
pub fn cpu_device() -> (d: Device)
    ensures
        is_cpu(d),
{
    Device::Cpu
}

/// Relies on candle's Device::is_cpu: whether a device is the processor.
#[verifier::external_body]
pub(crate) fn device_is_cpu(d: &Device) -> (r: bool)
    ensures
        r == is_cpu(*d),
{
    d.is_cpu()
}

/// Relies on candle's Tensor::from_vec: a row tensor of the given ids, shaped
/// for a single-sequence batch.
#[verifier::external_body]
pub(crate) fn tensor_from_ids(ids: &Vec<u32>, dev: &Device) -> (r: Result<Tensor, PocketTTSError>)
    ensures
        is_cpu(*dev) ==> r is Ok,
        r matches Ok(t) ==> dims_of(t) == seq![1int, ids@.len() as int] && ids_of(t) == ids@ && (
        is_cpu(*dev) ==> cpu_ids(t)),
{
    Tensor::from_vec(ids.clone(), (1, ids.len()), dev).map_err(
        |e| PocketTTSError::InferenceFailed(e.to_string()),
    )
}

/// Relies on candle's Tensor::from_vec: a one-element float tensor holding
/// the given integer value.
#[verifier::external_body]
pub(crate) fn scalar_tensor(x: u32, dev: &Device) -> (r: Result<Tensor, PocketTTSError>)
    ensures
        is_cpu(*dev) ==> r is Ok,
        r matches Ok(t) ==> dims_of(t) == seq![1int] && (is_cpu(*dev) ==> cpu_float(t)),
{
    let t = Tensor::from_vec(vec![x], (1,), dev).and_then(|t| t.to_dtype(candle_core::DType::F32));
    t.map_err(|e| PocketTTSError::InferenceFailed(e.to_string()))
}

/// Relies on candle's Tensor::arange: the float values 0, 1, ..., n-1.
#[verifier::external_body]
pub(crate) fn arange_tensor(n: u32, dev: &Device) -> (r: Result<Tensor, PocketTTSError>)
    ensures
        is_cpu(*dev) ==> r is Ok,
        r matches Ok(t) ==> dims_of(t) == seq![n as int] && (is_cpu(*dev) ==> cpu_float(t)),
{
    let t = Tensor::arange(0u32, n, dev).and_then(|t| t.to_dtype(candle_core::DType::F32));
    t.map_err(|e| PocketTTSError::InferenceFailed(e.to_string()))
}

/// Relies on candle's Tensor::from_vec: a rank-four float indicator tensor,
/// one where the bit is set and zero elsewhere.
#[verifier::external_body]
pub(crate) fn indicator_tensor(bits: &Vec<bool>, q: usize, kv: usize, dev: &Device) -> (r: Result<
    Tensor,
    PocketTTSError,
>)
    requires
        bits@.len() == q * kv,
    ensures
        is_cpu(*dev) ==> r is Ok,
        r matches Ok(t) ==> dims_of(t) == seq![1int, 1int, q as int, kv as int] && (is_cpu(*dev)
            ==> cpu_float(t)),
{
    let data: Vec<u8> = bits.iter().map(|&b| u8::from(b)).collect();
    let t = Tensor::from_vec(data, (1, 1, q, kv), dev).and_then(
        |t| t.to_dtype(candle_core::DType::F32),
    );
    t.map_err(|e| PocketTTSError::InferenceFailed(e.to_string()))
}

/// Relies on candle's Tensor::dims: the tensor's shape.
#[verifier::external_body]
pub(crate) fn tensor_dims(t: &Tensor) -> (r: Vec<usize>)
    ensures
        r@.map_values(|d: usize| d as int) == dims_of(*t),
{
    t.dims().to_vec()
}

/// Relies on candle's Tensor::narrow: the `len` slots of `dim` from `start`.
#[verifier::external_body]
pub(crate) fn tensor_narrow(t: &Tensor, dim: usize, start: usize, len: usize) -> (r: Result<
    Tensor,
    PocketTTSError,
>)
    ensures
        (dim < dims_of(*t).len() && start + len <= dims_of(*t)[dim as int]) ==> r is Ok,
        r matches Ok(o) ==> dim < dims_of(*t).len() && start + len <= dims_of(*t)[dim as int]
            && dims_of(o) == dims_of(*t).update(dim as int, len as int) && cpu_float(o)
            == cpu_float(*t),
{
    t.narrow(dim, start, len).map_err(|e| PocketTTSError::InferenceFailed(e.to_string()))
}

/// Relies on candle's Tensor::cat: the two tensors joined along `dim`; all
/// other dimensions agree.
#[verifier::external_body]
pub(crate) fn tensor_cat2(a: &Tensor, b: &Tensor, dim: usize) -> (r: Result<
    Tensor,
    PocketTTSError,
>)
    ensures
        (cpu_float(*a) && cpu_float(*b) && dim < dims_of(*a).len() && dims_of(*b).len() == dims_of(
            *a,
        ).len() && (forall|i: int|
            0 <= i < dims_of(*a).len() && i != dim ==> dims_of(*a)[i] == dims_of(*b)[i])) ==> r
            is Ok,
        r matches Ok(o) ==> dim < dims_of(*a).len() && dims_of(*b).len() == dims_of(*a).len()
            && (forall|i: int|
            0 <= i < dims_of(*a).len() && i != dim ==> dims_of(*a)[i] == dims_of(*b)[i])
            && dims_of(o) == dims_of(*a).update(
            dim as int,
            dims_of(*a)[dim as int] + dims_of(*b)[dim as int],
        ) && (cpu_float(*a) && cpu_float(*b) ==> cpu_float(o)),
{
    Tensor::cat(&[a, b], dim).map_err(|e| PocketTTSError::InferenceFailed(e.to_string()))
}

/// Relies on candle's Tensor::reshape: the same elements under a rank-four
/// shape with the same element count.
#[verifier::external_body]
pub(crate) fn tensor_reshape4(t: &Tensor, d0: usize, d1: usize, d2: usize, d3: usize) -> (r:
    Result<Tensor, PocketTTSError>)
    ensures
        (cpu_float(*t) && elem_count(seq![d0 as int, d1 as int, d2 as int, d3 as int])
            == elem_count(dims_of(*t))) ==> r is Ok,
        r matches Ok(o) ==> dims_of(o) == seq![d0 as int, d1 as int, d2 as int, d3 as int]
            && elem_count(dims_of(o)) == elem_count(dims_of(*t)) && cpu_float(o) == cpu_float(*t),
{
    t.reshape((d0, d1, d2, d3)).map_err(|e| PocketTTSError::InferenceFailed(e.to_string()))
}

/// Relies on candle's Tensor::reshape: the same elements under a rank-three
/// shape with the same element count.
#[verifier::external_body]
pub(crate) fn tensor_reshape3(t: &Tensor, d0: usize, d1: usize, d2: usize) -> (r: Result<
    Tensor,
    PocketTTSError,
>)
    ensures
        (cpu_float(*t) && elem_count(seq![d0 as int, d1 as int, d2 as int]) == elem_count(
            dims_of(*t),
        )) ==> r is Ok,
        r matches Ok(o) ==> dims_of(o) == seq![d0 as int, d1 as int, d2 as int] && elem_count(
            dims_of(o),
        ) == elem_count(dims_of(*t)) && cpu_float(o) == cpu_float(*t),
{
    t.reshape((d0, d1, d2)).map_err(|e| PocketTTSError::InferenceFailed(e.to_string()))
}

/// Relies on candle's Tensor::transpose: the two dimensions swapped.
#[verifier::external_body]
pub(crate) fn tensor_transpose(t: &Tensor, d1: usize, d2: usize) -> (r: Result<
    Tensor,
    PocketTTSError,
>)
    ensures
        (d1 < dims_of(*t).len() && d2 < dims_of(*t).len()) ==> r is Ok,
        r matches Ok(o) ==> d1 < dims_of(*t).len() && d2 < dims_of(*t).len() && dims_of(o)
            == dims_of(*t).update(d1 as int, dims_of(*t)[d2 as int]).update(
            d2 as int,
            dims_of(*t)[d1 as int],
        ) && cpu_float(o) == cpu_float(*t),
{
    t.transpose(d1, d2).map_err(|e| PocketTTSError::InferenceFailed(e.to_string()))
}

/// Relies on candle's Tensor::unsqueeze: a new extent of one at `dim`.
#[verifier::external_body]
pub(crate) fn tensor_unsqueeze(t: &Tensor, dim: usize) -> (r: Result<Tensor, PocketTTSError>)
    ensures
        dim <= dims_of(*t).len() ==> r is Ok,
        r matches Ok(o) ==> dim <= dims_of(*t).len() && dims_of(o) == dims_of(*t).insert(
            dim as int,
            1int,
        ) && cpu_float(o) == cpu_float(*t),
{
    t.unsqueeze(dim).map_err(|e| PocketTTSError::InferenceFailed(e.to_string()))
}

/// Relies on candle's Tensor::squeeze: the extent at `dim` removed when it is
/// one, the tensor unchanged otherwise.
#[verifier::external_body]
pub(crate) fn tensor_squeeze(t: &Tensor, dim: usize) -> (r: Result<Tensor, PocketTTSError>)
    ensures
        dim < dims_of(*t).len() ==> r is Ok,
        r matches Ok(o) ==> dim < dims_of(*t).len() && dims_of(o) == (if dims_of(*t)[dim as int]
            == 1 {
            dims_of(*t).remove(dim as int)
        } else {
            dims_of(*t)
        }) && cpu_float(o) == cpu_float(*t),
{
    t.squeeze(dim).map_err(|e| PocketTTSError::InferenceFailed(e.to_string()))
}

/// Relies on candle's Tensor::repeat: the first of three dimensions tiled
/// `n` times.
#[verifier::external_body]
pub(crate) fn tensor_repeat_batch(t: &Tensor, n: usize) -> (r: Result<Tensor, PocketTTSError>)
    requires
        n >= 1,
    ensures
        cpu_float(*t) && dims_of(*t).len() == 3 ==> r is Ok,
        r matches Ok(o) ==> dims_of(*t).len() == 3 ==> dims_of(o) == seq![
            n * dims_of(*t)[0],
            dims_of(*t)[1],
            dims_of(*t)[2],
        ] && cpu_float(o) == cpu_float(*t),
{
    t.repeat((n, 1, 1)).map_err(|e| PocketTTSError::InferenceFailed(e.to_string()))
}

/// Relies on candle's Tensor::matmul: batched matrix product over the last
/// two dimensions.  The operands are laid out contiguously first, which the
/// processor kernel's striding patterns always accept.
#[verifier::external_body]
pub(crate) fn tensor_matmul(a: &Tensor, b: &Tensor) -> (r: Result<Tensor, PocketTTSError>)
    ensures
        ({
            let da = dims_of(*a);
            let db = dims_of(*b);
            cpu_float(*a) && cpu_float(*b) && da.len() >= 2 && db.len() == da.len() && da[da.len()
                - 1] == db[db.len() - 2] && (forall|i: int|
                0 <= i < da.len() - 2 ==> #[trigger] da[i] == db[i])
        }) ==> r is Ok,
        r matches Ok(o) ==> ({
            let da = dims_of(*a);
            let db = dims_of(*b);
            &&& da.len() >= 2
            &&& db.len() == da.len()
            &&& dims_of(o) == da.take(da.len() - 2).push(da[da.len() - 2]).push(db[db.len() - 1])
            &&& (cpu_float(*a) && cpu_float(*b) ==> cpu_float(o))
        }),
{
    let r = a.contiguous().and_then(|ac| b.contiguous().and_then(|bc| ac.matmul(&bc)));
    r.map_err(|e| PocketTTSError::InferenceFailed(e.to_string()))
}

/// Relies on candle_nn's softmax over the last dimension: the shape is kept.
/// The input is laid out contiguously first, as the kernel demands.
#[verifier::external_body]
pub(crate) fn tensor_softmax_last(t: &Tensor) -> (r: Result<Tensor, PocketTTSError>)
    requires
        dims_of(*t).len() >= 1,
        dims_of(*t)[dims_of(*t).len() - 1] >= 1,
    ensures
        cpu_float(*t) ==> r is Ok,
        r matches Ok(o) ==> dims_of(o) == dims_of(*t) && cpu_float(o) == cpu_float(*t),
{
    let r = t.contiguous().and_then(|c| candle_nn::ops::softmax_last_dim(&c));
    r.map_err(|e| PocketTTSError::InferenceFailed(e.to_string()))
}

/// Relies on candle's Tensor::argmax_keepdim over the last dimension: that
/// extent collapses to one.
#[verifier::external_body]
pub(crate) fn tensor_argmax_keepdim_last(t: &Tensor) -> (r: Result<Tensor, PocketTTSError>)
    ensures
        (cpu_float(*t) && dims_of(*t).len() >= 1 && dims_of(*t)[dims_of(*t).len() - 1] >= 1) ==> r
            is Ok,
        r matches Ok(o) ==> ({
            let d = dims_of(*t);
            d.len() >= 1 && dims_of(o) == d.update(d.len() - 1, 1int) && (cpu_float(*t)
                ==> cpu_float(o))
        }),
{
    let o = t.argmax_keepdim(candle_core::D::Minus1).and_then(
        |o| o.to_dtype(candle_core::DType::F32),
    );
    o.map_err(|e| PocketTTSError::InferenceFailed(e.to_string()))
}

/// Relies on candle's Tensor::mean_keepdim over the last dimension: that
/// extent collapses to one.
#[verifier::external_body]
pub(crate) fn tensor_mean_keepdim_last(t: &Tensor) -> (r: Result<Tensor, PocketTTSError>)
    ensures
        (cpu_float(*t) && dims_of(*t).len() >= 1) ==> r is Ok,
        r matches Ok(o) ==> ({
            let d = dims_of(*t);
            d.len() >= 1 && dims_of(o) == d.update(d.len() - 1, 1int) && (cpu_float(*t)
                ==> cpu_float(o))
        }),
{
    t.mean_keepdim(candle_core::D::Minus1).map_err(
        |e| PocketTTSError::InferenceFailed(e.to_string()),
    )
}

/// Relies on candle's Tensor::max_keepdim on a non-empty rank-one tensor:
/// one maximum.
#[verifier::external_body]
pub(crate) fn tensor_max1(t: &Tensor) -> (r: Result<Tensor, PocketTTSError>)
    requires
        dims_of(*t).len() == 1,
        dims_of(*t)[0] >= 1,
    ensures
        cpu_float(*t) ==> r is Ok,
        r matches Ok(o) ==> dims_of(o) == seq![1int] && (cpu_float(*t) ==> cpu_float(o)),
{
    t.max_keepdim(0).map_err(|e| PocketTTSError::InferenceFailed(e.to_string()))
}

/// Relies on candle's comparison ops: whether the single element of `a` is
/// greater than that of `b`.  Nothing is promised of the answer.
#[verifier::external_body]
pub(crate) fn scalar_gt(a: &Tensor, b: &Tensor) -> (r: Result<bool, PocketTTSError>)
    ensures
        (cpu_float(*a) && cpu_float(*b) && dims_of(*a) == seq![1int] && dims_of(*b) == seq![1int])
            ==> r is Ok,
{
    let v = a.broadcast_gt(b).and_then(|t| t.reshape(())).and_then(|t| t.to_scalar::<u8>());
    v.map(|x| x != 0).map_err(|e| PocketTTSError::InferenceFailed(e.to_string()))
}

/// Relies on candle's comparison ops: whether the single elements of `a` and
/// `b` differ.  Nothing is promised of the answer.
#[verifier::external_body]
pub(crate) fn scalar_ne(a: &Tensor, b: &Tensor) -> (r: Result<bool, PocketTTSError>)
    ensures
        (cpu_float(*a) && cpu_float(*b) && dims_of(*a) == seq![1int] && dims_of(*b) == seq![1int])
            ==> r is Ok,
{
    let v = a.broadcast_ne(b).and_then(|t| t.reshape(())).and_then(|t| t.to_scalar::<u8>());
    v.map(|x| x != 0).map_err(|e| PocketTTSError::InferenceFailed(e.to_string()))
}

/// Relies on candle's Tensor::broadcast_eq: the elementwise indicator of
/// equality, under the broadcast shape, as floats.
#[verifier::external_body]
pub(crate) fn tensor_eq_indicator(a: &Tensor, b: &Tensor) -> (r: Result<Tensor, PocketTTSError>)
    ensures
        (cpu_float(*a) && cpu_float(*b) && bcast_ok(dims_of(*a), dims_of(*b))) ==> r is Ok,
        r matches Ok(o) ==> bcast_ok(dims_of(*a), dims_of(*b)) && dims_of(o) == bcast_join(
            dims_of(*a),
            dims_of(*b),
        ) && (cpu_float(*a) && cpu_float(*b) ==> cpu_float(o)),
{
    let o = a.broadcast_eq(b).and_then(|t| t.to_dtype(candle_core::DType::F32));
    o.map_err(|e| PocketTTSError::InferenceFailed(e.to_string()))
}

/// Relies on candle's Tensor::tanh: elementwise, the shape is kept.
#[verifier::external_body]
pub(crate) fn tensor_tanh(t: &Tensor) -> (r: Result<Tensor, PocketTTSError>)
    ensures
        cpu_float(*t) ==> r is Ok,
        r matches Ok(o) ==> dims_of(o) == dims_of(*t) && cpu_float(o) == cpu_float(*t),
{
    t.tanh().map_err(|e| PocketTTSError::InferenceFailed(e.to_string()))
}

/// Relies on candle's Tensor::log: elementwise, the shape is kept.
#[verifier::external_body]
pub(crate) fn tensor_log(t: &Tensor) -> (r: Result<Tensor, PocketTTSError>)
    ensures
        cpu_float(*t) ==> r is Ok,
        r matches Ok(o) ==> dims_of(o) == dims_of(*t) && cpu_float(o) == cpu_float(*t),
{
    t.log().map_err(|e| PocketTTSError::InferenceFailed(e.to_string()))
}

/// Relies on candle's Tensor::exp: elementwise, the shape is kept.
#[verifier::external_body]
pub(crate) fn tensor_exp(t: &Tensor) -> (r: Result<Tensor, PocketTTSError>)
    ensures
        cpu_float(*t) ==> r is Ok,
        r matches Ok(o) ==> dims_of(o) == dims_of(*t) && cpu_float(o) == cpu_float(*t),
{
    t.exp().map_err(|e| PocketTTSError::InferenceFailed(e.to_string()))
}

/// Relies on candle's Tensor::cos: elementwise, the shape is kept.
#[verifier::external_body]
pub(crate) fn tensor_cos(t: &Tensor) -> (r: Result<Tensor, PocketTTSError>)
    ensures
        cpu_float(*t) ==> r is Ok,
        r matches Ok(o) ==> dims_of(o) == dims_of(*t) && cpu_float(o) == cpu_float(*t),
{
    t.cos().map_err(|e| PocketTTSError::InferenceFailed(e.to_string()))
}

/// Relies on candle's Tensor::sin: elementwise, the shape is kept.
#[verifier::external_body]
pub(crate) fn tensor_sin(t: &Tensor) -> (r: Result<Tensor, PocketTTSError>)
    ensures
        cpu_float(*t) ==> r is Ok,
        r matches Ok(o) ==> dims_of(o) == dims_of(*t) && cpu_float(o) == cpu_float(*t),
{
    t.sin().map_err(|e| PocketTTSError::InferenceFailed(e.to_string()))
}

/// Relies on candle's Tensor::sqrt: elementwise, the shape is kept.
#[verifier::external_body]
pub(crate) fn tensor_sqrt(t: &Tensor) -> (r: Result<Tensor, PocketTTSError>)
    ensures
        cpu_float(*t) ==> r is Ok,
        r matches Ok(o) ==> dims_of(o) == dims_of(*t) && cpu_float(o) == cpu_float(*t),
{
    t.sqrt().map_err(|e| PocketTTSError::InferenceFailed(e.to_string()))
}

/// Relies on candle's Tensor::abs: elementwise, the shape is kept.
#[verifier::external_body]
pub(crate) fn tensor_abs(t: &Tensor) -> (r: Result<Tensor, PocketTTSError>)
    ensures
        cpu_float(*t) ==> r is Ok,
        r matches Ok(o) ==> dims_of(o) == dims_of(*t) && cpu_float(o) == cpu_float(*t),
{
    t.abs().map_err(|e| PocketTTSError::InferenceFailed(e.to_string()))
}

/// Relies on candle's Tensor::sqr: elementwise, the shape is kept.
#[verifier::external_body]
pub(crate) fn tensor_sqr(t: &Tensor) -> (r: Result<Tensor, PocketTTSError>)
    ensures
        cpu_float(*t) ==> r is Ok,
        r matches Ok(o) ==> dims_of(o) == dims_of(*t) && cpu_float(o) == cpu_float(*t),
{
    t.sqr().map_err(|e| PocketTTSError::InferenceFailed(e.to_string()))
}

/// Relies on candle's Tensor::neg: elementwise, the shape is kept.
#[verifier::external_body]
pub(crate) fn tensor_neg(t: &Tensor) -> (r: Result<Tensor, PocketTTSError>)
    ensures
        cpu_float(*t) ==> r is Ok,
        r matches Ok(o) ==> dims_of(o) == dims_of(*t) && cpu_float(o) == cpu_float(*t),
{
    t.neg().map_err(|e| PocketTTSError::InferenceFailed(e.to_string()))
}

/// Relies on candle's Tensor::gelu_erf: elementwise, the shape is kept.
#[verifier::external_body]
pub(crate) fn tensor_gelu(t: &Tensor) -> (r: Result<Tensor, PocketTTSError>)
    ensures
        cpu_float(*t) ==> r is Ok,
        r matches Ok(o) ==> dims_of(o) == dims_of(*t) && cpu_float(o) == cpu_float(*t),
{
    t.gelu_erf().map_err(|e| PocketTTSError::InferenceFailed(e.to_string()))
}

/// Relies on candle_nn's silu: elementwise, the shape is kept.
#[verifier::external_body]
pub(crate) fn tensor_silu(t: &Tensor) -> (r: Result<Tensor, PocketTTSError>)
    ensures
        cpu_float(*t) ==> r is Ok,
        r matches Ok(o) ==> dims_of(o) == dims_of(*t) && cpu_float(o) == cpu_float(*t),
{
    candle_nn::ops::silu(t).map_err(|e| PocketTTSError::InferenceFailed(e.to_string()))
}

/// Relies on candle's addition: elementwise over equal shapes.
#[verifier::external_body]
pub(crate) fn tensor_add(a: &Tensor, b: &Tensor) -> (r: Result<Tensor, PocketTTSError>)
    ensures
        (cpu_float(*a) && cpu_float(*b) && dims_of(*a) == dims_of(*b)) ==> r is Ok,
        r matches Ok(o) ==> dims_of(*a) == dims_of(*b) && dims_of(o) == dims_of(*a) && (cpu_float(
            *a,
        ) && cpu_float(*b) ==> cpu_float(o)),
{
    a.add(b).map_err(|e| PocketTTSError::InferenceFailed(e.to_string()))
}

/// Relies on candle's multiplication: elementwise over equal shapes.
#[verifier::external_body]
pub(crate) fn tensor_mul(a: &Tensor, b: &Tensor) -> (r: Result<Tensor, PocketTTSError>)
    ensures
        (cpu_float(*a) && cpu_float(*b) && dims_of(*a) == dims_of(*b)) ==> r is Ok,
        r matches Ok(o) ==> dims_of(*a) == dims_of(*b) && dims_of(o) == dims_of(*a) && (cpu_float(
            *a,
        ) && cpu_float(*b) ==> cpu_float(o)),
{
    a.mul(b).map_err(|e| PocketTTSError::InferenceFailed(e.to_string()))
}

/// Relies on candle's Tensor::broadcast_add: elementwise under the broadcast
/// shape.
#[verifier::external_body]
pub(crate) fn tensor_broadcast_add(a: &Tensor, b: &Tensor) -> (r: Result<Tensor, PocketTTSError>)
    ensures
        (cpu_float(*a) && cpu_float(*b) && bcast_ok(dims_of(*a), dims_of(*b))) ==> r is Ok,
        r matches Ok(o) ==> bcast_ok(dims_of(*a), dims_of(*b)) && dims_of(o) == bcast_join(
            dims_of(*a),
            dims_of(*b),
        ) && (cpu_float(*a) && cpu_float(*b) ==> cpu_float(o)),
{
    a.broadcast_add(b).map_err(|e| PocketTTSError::InferenceFailed(e.to_string()))
}

/// Relies on candle's Tensor::broadcast_mul: elementwise under the broadcast
/// shape.
#[verifier::external_body]
pub(crate) fn tensor_broadcast_mul(a: &Tensor, b: &Tensor) -> (r: Result<Tensor, PocketTTSError>)
    ensures
        (cpu_float(*a) && cpu_float(*b) && bcast_ok(dims_of(*a), dims_of(*b))) ==> r is Ok,
        r matches Ok(o) ==> bcast_ok(dims_of(*a), dims_of(*b)) && dims_of(o) == bcast_join(
            dims_of(*a),
            dims_of(*b),
        ) && (cpu_float(*a) && cpu_float(*b) ==> cpu_float(o)),
{
    a.broadcast_mul(b).map_err(|e| PocketTTSError::InferenceFailed(e.to_string()))
}

/// Relies on candle's Tensor::broadcast_sub: elementwise under the broadcast
/// shape.
#[verifier::external_body]
pub(crate) fn tensor_broadcast_sub(a: &Tensor, b: &Tensor) -> (r: Result<Tensor, PocketTTSError>)
    ensures
        (cpu_float(*a) && cpu_float(*b) && bcast_ok(dims_of(*a), dims_of(*b))) ==> r is Ok,
        r matches Ok(o) ==> bcast_ok(dims_of(*a), dims_of(*b)) && dims_of(o) == bcast_join(
            dims_of(*a),
            dims_of(*b),
        ) && (cpu_float(*a) && cpu_float(*b) ==> cpu_float(o)),
{
    a.broadcast_sub(b).map_err(|e| PocketTTSError::InferenceFailed(e.to_string()))
}

/// Relies on candle's Tensor::broadcast_div: elementwise under the broadcast
/// shape.
#[verifier::external_body]
pub(crate) fn tensor_broadcast_div(a: &Tensor, b: &Tensor) -> (r: Result<Tensor, PocketTTSError>)
    ensures
        (cpu_float(*a) && cpu_float(*b) && bcast_ok(dims_of(*a), dims_of(*b))) ==> r is Ok,
        r matches Ok(o) ==> bcast_ok(dims_of(*a), dims_of(*b)) && dims_of(o) == bcast_join(
            dims_of(*a),
            dims_of(*b),
        ) && (cpu_float(*a) && cpu_float(*b) ==> cpu_float(o)),
{
    a.broadcast_div(b).map_err(|e| PocketTTSError::InferenceFailed(e.to_string()))
}

/// The model's array store: named weight arrays, handed out to the layer
/// constructors.  Holds candle's variable builder.
#[verifier::external_body]
pub struct WeightStore {
    pub(crate) vb: candle_nn::VarBuilder<'static>,
}

impl WeightStore {
    /// Relies on candle_nn's VarBuilder::zeros: a store whose every array is
    /// all-zero, for exercising the pipeline without weight files.
    #[verifier::external_body]
    pub fn zeros(dev: &Device) -> (ws: WeightStore)
        ensures
            cpu_store(ws) == is_cpu(*dev),
    {
        WeightStore { vb: candle_nn::VarBuilder::zeros(candle_core::DType::F32, dev) }
    }

    /// Relies on candle_nn's VarBuilder::from_buffered_safetensors: a store
    /// backed by a serialized weight file.
    #[verifier::external_body]
    pub fn from_safetensors_bytes(data: Vec<u8>, dev: &Device) -> (r: Result<
        WeightStore,
        PocketTTSError,
    >)
        ensures
            r matches Ok(ws) ==> cpu_store(ws) == is_cpu(*dev),
            r matches Err(e) ==> e is ModelLoadFailed,
    {
        match candle_nn::VarBuilder::from_buffered_safetensors(data, candle_core::DType::F32, dev) {
            Ok(vb) => Ok(WeightStore { vb }),
            Err(e) => Err(PocketTTSError::ModelLoadFailed(e.to_string())),
        }
    }

    /// Relies on candle_nn's VarBuilder::pp: the sub-store under a name.
    #[verifier::external_body]
    pub fn sub(&self, name: &str) -> (ws: WeightStore)
        ensures
            cpu_store(ws) == cpu_store(*self),
    {
        WeightStore { vb: self.vb.pp(name) }
    }

    /// Relies on candle_nn's VarBuilder::device and dtype: whether the store
    /// hands out 32-bit float arrays on the processor.
    #[verifier::external_body]
    pub(crate) fn on_cpu(&self) -> (r: bool)
        ensures
            r == cpu_store(*self),
    {
        self.vb.device().is_cpu() && self.vb.dtype() == candle_core::DType::F32
    }

    /// Relies on candle_nn's VarBuilder::get: the named rank-one array, on
    /// the store's device with the store's element type.
    #[verifier::external_body]
    pub(crate) fn get_vector(&self, n: usize, name: &str) -> (r: Result<Tensor, PocketTTSError>)
        ensures
            r matches Ok(t) ==> dims_of(t) == seq![n as int] && (cpu_store(*self) ==> cpu_float(
                t,
            )),
            r matches Err(e) ==> e is ModelLoadFailed,
    {
        self.vb.get((n,), name).map_err(|e| PocketTTSError::ModelLoadFailed(e.to_string()))
    }
}

/// A fully-connected layer: candle's linear transform together with its
/// declared input and output widths.
pub struct LinearLayer {
    pub(crate) inner: candle_nn::Linear,
    pub(crate) in_dim: usize,
    pub(crate) out_dim: usize,
    pub(crate) cpu: bool,
}

impl LinearLayer {
    /// Relies on candle_nn's linear: a layer of the given widths, its weight
    /// and bias drawn from the store.
    #[verifier::external_body]
    pub(crate) fn new(ws: &WeightStore, in_dim: usize, out_dim: usize) -> (r: Result<
        LinearLayer,
        PocketTTSError,
    >)
        ensures
            r matches Ok(l) ==> l.in_dim == in_dim && l.out_dim == out_dim && l.cpu == cpu_store(
                *ws,
            ),
            r matches Err(e) ==> e is ModelLoadFailed,
    {
        let cpu = ws.vb.device().is_cpu() && ws.vb.dtype() == candle_core::DType::F32;
        match candle_nn::linear(in_dim, out_dim, ws.vb.clone()) {
            Ok(inner) => Ok(LinearLayer { inner, in_dim, out_dim, cpu }),
            Err(e) => Err(PocketTTSError::ModelLoadFailed(e.to_string())),
        }
    }

    /// Relies on candle_nn's Linear::forward: the last dimension turns into
    /// the layer's output width; inputs of rank two to four that end in the
    /// input width go through.  The input is laid out contiguously first, so
    /// the forward pass stays on the plain matmul path for every layout.
    #[verifier::external_body]
    pub(crate) fn forward(&self, x: &Tensor) -> (r: Result<Tensor, PocketTTSError>)
        ensures
            ({
                let d = dims_of(*x);
                self.cpu && cpu_float(*x) && 2 <= d.len() <= 4 && d[d.len() - 1] == self.in_dim
                    && self.in_dim >= 1
            }) ==> r is Ok,
            r matches Ok(o) ==> ({
                let d = dims_of(*x);
                d.len() >= 2 && dims_of(o) == d.update(d.len() - 1, self.out_dim as int) && (
                self.cpu && cpu_float(*x) ==> cpu_float(o))
            }),
    {
        let r = x.contiguous().and_then(|xc| self.inner.forward(&xc));
        r.map_err(|e| PocketTTSError::InferenceFailed(e.to_string()))
    }
}

} // verus!
