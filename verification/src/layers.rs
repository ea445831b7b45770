//! The boundary to the tensor engine.
//!
//! Tensors and layers are values of the `burn` crate, run on its `ndarray`
//! backend. Nothing here looks inside them. What the rest of the library
//! knows of a tensor is its shape and whether it holds single-precision
//! numbers, and of a layer the geometry it was made with. Every function of
//! this module says on which tensors the engine can be called at all, what
//! shape it returns, and which tensor it returns: each layer operation is a
//! fixed sequence of IEEE additions, multiplications, divisions, square roots
//! and comparisons, so its result is a function of the layer and its input
//! and has a name.
use crate::shape::{ConvGeometry, Padding, PoolGeometry, Shape4, MAX_EXTENT};
use burn::backend::ndarray::NdArrayDevice;
use burn::backend::NdArray;
use burn::nn::conv::{Conv2d, Conv2dConfig};
use burn::nn::pool::{MaxPool2d, MaxPool2dConfig};
use burn::nn::{BatchNorm, BatchNormConfig, PaddingConfig2d, Relu};
use burn::tensor::module::interpolate;
use burn::tensor::ops::{InterpolateMode, InterpolateOptions};
use burn::tensor::{DType, Tensor};
use vstd::prelude::*;

verus! {

/// The device of the `ndarray` backend.
#[verifier::external_type_specification]
#[verifier::external_body]
pub struct ExNdArrayDevice(NdArrayDevice);

/// `burn`'s two-dimensional max pooling layer.
#[verifier::external_type_specification]
#[verifier::external_body]
pub struct ExMaxPool2d(MaxPool2d);

/// `burn`'s rectified linear unit.
#[verifier::external_type_specification]
#[verifier::external_body]
pub struct ExRelu(Relu);

/// A four-dimensional tensor of floating-point numbers, laid out as batch,
/// channels, height, width. The layers work on single-precision tensors
/// only.
#[verifier::external_body]
#[derive(Debug)]
pub struct Tensor4 {
    pub tensor: Tensor<NdArray, 4>,
}

/// A two-dimensional convolution layer with its weights and bias.
#[verifier::external_body]
#[derive(Debug)]
pub struct ConvLayer {
    conv: Conv2d<NdArray>,
}

/// A batch normalisation layer over the channels of a four-dimensional
/// tensor, with its scale, shift and running statistics.
#[verifier::external_body]
#[derive(Debug)]
pub struct NormLayer {
    norm: BatchNorm<NdArray, 2>,
}

/// What `Tensor::dims` returns for the tensor inside `t`.
pub uninterp spec fn shape_of(t: Tensor4) -> Shape4;

/// The geometry that `Conv2dConfig::init` made `layer` with.
pub uninterp spec fn conv_geometry(layer: ConvLayer) -> ConvGeometry;

/// The number of features that `BatchNormConfig::init` made `layer` with.
pub uninterp spec fn norm_features(layer: NormLayer) -> usize;

/// The geometry that `MaxPool2dConfig::init` made `pool` with.
pub uninterp spec fn pool_geometry(pool: MaxPool2d) -> PoolGeometry;

/// Whether `Tensor::dtype` reports `DType::F32` for the tensor inside `t`.
pub uninterp spec fn single_precision(t: Tensor4) -> bool;

/// What `Conv2d::forward` of `layer` returns for `x`. The weights of a layer
/// are drawn once and stay as they are.
pub uninterp spec fn convolved(layer: ConvLayer, x: Tensor4) -> Tensor4;

/// What `BatchNorm::forward` of `layer` returns for `x` on this backend,
/// where it normalises with the layer's running statistics and leaves them
/// untouched.
pub uninterp spec fn normalised(layer: NormLayer, x: Tensor4) -> Tensor4;

/// What `MaxPool2d::forward` of `pool` returns for `x`.
pub uninterp spec fn pooled(pool: MaxPool2d, x: Tensor4) -> Tensor4;

/// What `Relu::forward` returns for `x`.
pub uninterp spec fn rectified(relu: Relu, x: Tensor4) -> Tensor4;

/// What nearest-neighbour `interpolate` returns for `x` and the target
/// `height` and `width`.
pub uninterp spec fn resampled(x: Tensor4, height: usize, width: usize) -> Tensor4;

/// What `Tensor::cat` along the channel axis returns for `first` followed by
/// `second`.
pub uninterp spec fn stacked(first: Tensor4, second: Tensor4) -> Tensor4;

/// `Tensor::dtype`: whether the tensor holds single-precision numbers.
#[verifier::external_body]
pub(crate) fn is_single_precision(t: &Tensor4) -> (single: bool)
    ensures
        single == single_precision(*t),
{
    matches!(t.tensor.dtype(), DType::F32)
}

/// `Tensor::dims`: the extents of the tensor along its four axes.
#[verifier::external_body]
pub(crate) fn read_shape(t: &Tensor4) -> (shape: Shape4)
    ensures
        shape == shape_of(*t),
{
    let [batch, channels, height, width] = t.tensor.dims();
    Shape4 { batch, channels, height, width }
}

/// `Tensor::clone`: a second handle on the same elements, and so the same
/// tensor.
#[verifier::external_body]
pub(crate) fn duplicate(t: &Tensor4) -> (copy: Tensor4)
    ensures
        copy == *t,
{
    Tensor4 { tensor: t.tensor.clone() }
}

/// `Conv2dConfig::init`: a convolution of the given geometry. It refuses
/// padding that keeps the size together with an even kernel. The weights
/// are single precision; they are drawn when the layer is first used, from a
/// range derived from the number of input channels times the kernel's area,
/// which must be positive.
#[verifier::external_body]
pub(crate) fn conv_init(geometry: ConvGeometry, device: &NdArrayDevice) -> (layer: ConvLayer)
    requires
        geometry.wf(),
    ensures
        conv_geometry(layer) == geometry,
{
    let padding = match geometry.padding {
        Padding::Same => PaddingConfig2d::Same,
        Padding::Valid => PaddingConfig2d::Valid,
        Padding::Explicit(p) => PaddingConfig2d::Explicit(p, p),
    };
    let config = Conv2dConfig::new(
        [geometry.in_channels, geometry.out_channels],
        [geometry.kernel, geometry.kernel],
    ).with_stride([geometry.stride, geometry.stride]).with_padding(padding);
    ConvLayer { conv: config.init(device) }
}

/// `Conv2d::forward`: the convolution of `x`, which must be single
/// precision as the weights are. The batch is kept, the channels become the
/// layer's output channels, and height and width become the number of kernel
/// positions in the padded input; with padding that keeps the size this is
/// the height and width of `x`. The result is single precision.
#[verifier::external_body]
pub(crate) fn conv_forward(layer: &ConvLayer, x: Tensor4) -> (y: Tensor4)
    requires
        single_precision(x),
        conv_geometry(*layer).wf(),
        conv_geometry(*layer).admits(shape_of(x)),
    ensures
        y == convolved(*layer, x),
        shape_of(y) == conv_geometry(*layer).output(shape_of(x)),
        single_precision(y),
{
    Tensor4 { tensor: layer.conv.forward(x.tensor) }
}

/// `BatchNormConfig::init`: a batch normalisation over `features` channels.
#[verifier::external_body]
pub(crate) fn norm_init(features: usize, device: &NdArrayDevice) -> (layer: NormLayer)
    requires
        features >= 1,
    ensures
        norm_features(layer) == features,
{
    NormLayer { norm: BatchNormConfig::new(features).init(device) }
}

/// `BatchNorm::forward`: `x` normalised channel by channel; shape and
/// precision are kept. The channels of `x` must be the features of the layer,
/// and `x` single precision as the layer's statistics are.
#[verifier::external_body]
pub(crate) fn norm_forward(layer: &NormLayer, x: Tensor4) -> (y: Tensor4)
    requires
        single_precision(x),
        shape_of(x).channels == norm_features(*layer),
        shape_of(x).storable(),
    ensures
        y == normalised(*layer, x),
        shape_of(y) == shape_of(x),
        single_precision(y),
{
    Tensor4 { tensor: layer.norm.forward(x.tensor) }
}

/// `MaxPool2dConfig::init`: a max pooling of the given window and stride,
/// without padding.
#[verifier::external_body]
pub(crate) fn pool_init(geometry: PoolGeometry) -> (pool: MaxPool2d)
    requires
        geometry.wf(),
    ensures
        pool_geometry(pool) == geometry,
{
    MaxPool2dConfig::new([geometry.kernel, geometry.kernel]).with_strides(
        [geometry.stride, geometry.stride],
    ).init()
}

/// `MaxPool2d::forward`: the maximum over each window. Batch and channels
/// are kept; height and width become the number of window positions. A
/// single-precision tensor gives a single-precision result.
#[verifier::external_body]
pub(crate) fn pool_forward(pool: &MaxPool2d, x: Tensor4) -> (y: Tensor4)
    requires
        pool_geometry(*pool).wf(),
        pool_geometry(*pool).admits(shape_of(x)),
    ensures
        y == pooled(*pool, x),
        shape_of(y) == pool_geometry(*pool).output(shape_of(x)),
        single_precision(x) ==> single_precision(y),
{
    Tensor4 { tensor: pool.forward(x.tensor) }
}

/// `Relu::new`: the activation, which has no state.
#[verifier::external_body]
pub(crate) fn relu_new() -> Relu {
    Relu::new()
}

/// `Relu::forward`: every negative element replaced by zero; the shape is
/// kept, and a single-precision tensor gives a single-precision result.
#[verifier::external_body]
pub(crate) fn relu_forward(relu: &Relu, x: Tensor4) -> (y: Tensor4)
    ensures
        y == rectified(*relu, x),
        shape_of(y) == shape_of(x),
        single_precision(x) ==> single_precision(y),
{
    Tensor4 { tensor: relu.forward(x.tensor) }
}

/// `burn::tensor::module::interpolate` in its nearest-neighbour mode: `x`
/// resampled to `height` by `width`, every target element taking the value of
/// one source element. Batch and channels are kept, and a single-precision
/// tensor gives a single-precision result.
#[verifier::external_body]
pub(crate) fn upsample_nearest(x: Tensor4, height: usize, width: usize) -> (y: Tensor4)
    requires
        shape_of(x).storable(),
        shape_of(x).within_extent(),
        1 <= height <= MAX_EXTENT,
        1 <= width <= MAX_EXTENT,
        (Shape4 { batch: shape_of(x).batch, channels: shape_of(x).channels, height, width })
            .storable(),
    ensures
        y == resampled(x, height, width),
        shape_of(y) == (Shape4 {
            batch: shape_of(x).batch,
            channels: shape_of(x).channels,
            height,
            width,
        }),
        single_precision(x) ==> single_precision(y),
{
    let options = InterpolateOptions::new(InterpolateMode::Nearest);
    Tensor4 { tensor: interpolate(x.tensor, [height, width], options) }
}

/// `Tensor::cat` along the channel axis: the channels of `first` followed by
/// those of `second`. The two must agree in batch, height and width, and
/// both be single precision, as the result then is.
#[verifier::external_body]
pub(crate) fn concat_channels(first: Tensor4, second: Tensor4) -> (y: Tensor4)
    requires
        single_precision(first),
        single_precision(second),
        shape_of(first).batch == shape_of(second).batch,
        shape_of(first).height == shape_of(second).height,
        shape_of(first).width == shape_of(second).width,
        shape_of(first).channels + shape_of(second).channels <= usize::MAX,
        (Shape4 {
            batch: shape_of(first).batch,
            channels: (shape_of(first).channels + shape_of(second).channels) as usize,
            height: shape_of(first).height,
            width: shape_of(first).width,
        }).storable(),
    ensures
        y == stacked(first, second),
        single_precision(y),
        shape_of(y) == (Shape4 {
            batch: shape_of(first).batch,
            channels: (shape_of(first).channels + shape_of(second).channels) as usize,
            height: shape_of(first).height,
            width: shape_of(first).width,
        }),
{
    Tensor4 { tensor: Tensor::cat(vec![first.tensor, second.tensor], 1) }
}

} // verus!
