//! The convolutional backbone and the feature-pyramid neck.
//!
//! The backbone turns an image tensor into three feature maps at half, a
//! quarter and an eighth of its resolution. The neck fuses the three, first
//! from the deepest map upwards and then from the shallowest map downwards,
//! into three maps of one common channel count. Every function here states
//! the shapes it accepts and the shapes it returns, and is proved to hand each
//! layer an input that the layer can work on.
use crate::layers::{
    concat_channels, conv_forward, conv_geometry, conv_init, convolved, duplicate,
    is_single_precision, norm_features, norm_forward, norm_init, normalised, pool_forward,
    pool_geometry, pool_init, pooled, read_shape, rectified, relu_forward, relu_new, resampled,
    shape_of, single_precision, stacked, upsample_nearest, ConvLayer, NormLayer, Tensor4,
};
use crate::shape::{
    lemma_storable_within, ConvGeometry, Padding, PoolGeometry, Shape4, MAX_EXTENT,
};
use burn::backend::ndarray::NdArrayDevice;
use burn::nn::pool::MaxPool2d;
use burn::nn::Relu;
use vstd::prelude::*;

verus! {

/// The number of channels of an image tensor.
pub const IMAGE_CHANNELS: usize = 3;

/// The convolution of a backbone stage: a square kernel moved in steps of
/// one, padded so that height and width are kept.
pub open spec fn stage_conv(in_channels: usize, out_channels: usize, kernel: usize) -> ConvGeometry {
    ConvGeometry { in_channels, out_channels, kernel, stride: 1, padding: Padding::Same }
}

/// The pooling of a backbone stage: windows of two by two, moved in steps of
/// two.
pub open spec fn halving_pool() -> PoolGeometry {
    PoolGeometry { kernel: 2, stride: 2 }
}

/// A convolution of one by one that changes the channel count only.
pub open spec fn lateral_conv(in_channels: usize, out_channels: usize) -> ConvGeometry {
    ConvGeometry { in_channels, out_channels, kernel: 1, stride: 1, padding: Padding::Valid }
}

/// A convolution of three by three that keeps height and width.
pub open spec fn fusing_conv(in_channels: usize, out_channels: usize) -> ConvGeometry {
    ConvGeometry { in_channels, out_channels, kernel: 3, stride: 1, padding: Padding::Same }
}

/// A convolution of three by three, moved in steps of two over an input
/// padded by one: it halves height and width, rounding up.
pub open spec fn strided_conv(channels: usize) -> ConvGeometry {
    ConvGeometry {
        in_channels: channels,
        out_channels: channels,
        kernel: 3,
        stride: 2,
        padding: Padding::Explicit(1),
    }
}

/// The larger of two numbers.
pub open spec fn larger(a: int, b: int) -> int {
    if a >= b {
        a
    } else {
        b
    }
}

/// By how much the feature map of the given level is smaller than the image.
pub open spec fn reduction(level: int) -> int {
    if level == 0 {
        2
    } else if level == 1 {
        4
    } else {
        8
    }
}

/// The shape `input` with its channel count replaced.
pub open spec fn with_channels(input: Shape4, channels: usize) -> Shape4 {
    Shape4 { batch: input.batch, channels, height: input.height, width: input.width }
}

/// The shapes of the given tensors, in their order.
pub open spec fn shapes_of(tensors: Seq<Tensor4>) -> Seq<Shape4> {
    Seq::new(tensors.len(), |i: int| shape_of(tensors[i]))
}

/// Whether every one of the given tensors holds single-precision numbers.
pub open spec fn all_single(tensors: Seq<Tensor4>) -> bool {
    forall|i: int| 0 <= i < tensors.len() ==> single_precision(#[trigger] tensors[i])
}

/// Why a model could not work on what it was given.
#[derive(Debug)]
pub enum ForwardError {
    /// Some tensor does not hold single-precision numbers.
    Precision,
    /// The tensors have the shapes listed, which the model cannot work on.
    ShapeMismatch(Vec<Shape4>),
}

/// What a backbone is built from: the output channels of its three stages,
/// shallowest first, and the kernel size of its convolutions.
#[derive(Clone, Copy, Debug)]
pub struct BackboneConfig {
    pub channels: [usize; 3],
    pub kernel_size: usize,
}

/// Three stages of convolution, batch normalisation, activation and pooling.
#[derive(Debug)]
pub struct Backbone {
    conv1: ConvLayer,
    bn1: NormLayer,
    pool1: MaxPool2d,
    conv2: ConvLayer,
    bn2: NormLayer,
    pool2: MaxPool2d,
    conv3: ConvLayer,
    bn3: NormLayer,
    pool3: MaxPool2d,
    relu: Relu,
    channels: [usize; 3],
    kernel_size: usize,
}

impl BackboneConfig {
    /// Whether a backbone can be built: every stage has at least one output
    /// channel, the kernel size is odd and at most `MAX_EXTENT`, and the
    /// weights of every convolution are storable.
    pub open spec fn valid(&self) -> bool {
        &&& stage_conv(IMAGE_CHANNELS, self.channels[0], self.kernel_size).wf()
        &&& stage_conv(self.channels[0], self.channels[1], self.kernel_size).wf()
        &&& stage_conv(self.channels[1], self.channels[2], self.kernel_size).wf()
    }

    /// A configuration with the given channels and a kernel size of three.
    pub fn new(channels: [usize; 3]) -> (config: Self)
        ensures
            config.channels == channels,
            config.kernel_size == 3,
    {
        BackboneConfig { channels, kernel_size: 3 }
    }

    /// The same configuration with another kernel size.
    pub fn with_kernel_size(self, kernel_size: usize) -> (config: Self)
        ensures
            config.channels == self.channels,
            config.kernel_size == kernel_size,
    {
        BackboneConfig { channels: self.channels, kernel_size }
    }

    /// Decides `valid`.
    pub fn is_valid(&self) -> (ok: bool)
        ensures
            ok == self.valid(),
    {
        let first = ConvGeometry {
            in_channels: IMAGE_CHANNELS,
            out_channels: self.channels[0],
            kernel: self.kernel_size,
            stride: 1,
            padding: Padding::Same,
        };
        let second = ConvGeometry {
            in_channels: self.channels[0],
            out_channels: self.channels[1],
            kernel: self.kernel_size,
            stride: 1,
            padding: Padding::Same,
        };
        let third = ConvGeometry {
            in_channels: self.channels[1],
            out_channels: self.channels[2],
            kernel: self.kernel_size,
            stride: 1,
            padding: Padding::Same,
        };
        first.is_wf() && second.is_wf() && third.is_wf()
    }

    /// Builds the backbone, with freshly drawn weights, on `device`.
    pub fn init(&self, device: &NdArrayDevice) -> (backbone: Backbone)
        requires
            self.valid(),
        ensures
            backbone.channels() == self.channels@,
            backbone.kernel_size() == self.kernel_size,
            conv_geometry(backbone.conv(0)) == stage_conv(
                IMAGE_CHANNELS,
                self.channels[0],
                self.kernel_size,
            ),
            conv_geometry(backbone.conv(1)) == stage_conv(
                self.channels[0],
                self.channels[1],
                self.kernel_size,
            ),
            conv_geometry(backbone.conv(2)) == stage_conv(
                self.channels[1],
                self.channels[2],
                self.kernel_size,
            ),
            forall|stage: int|
                0 <= stage < 3 ==> norm_features(#[trigger] backbone.norm(stage))
                    == self.channels[stage],
            forall|stage: int|
                0 <= stage < 3 ==> pool_geometry(#[trigger] backbone.pool(stage)) == halving_pool(),
    {
        let k = self.kernel_size;
        let c = &self.channels;
        let pool = PoolGeometry { kernel: 2, stride: 2 };

        let first = ConvGeometry {
            in_channels: IMAGE_CHANNELS,
            out_channels: c[0],
            kernel: k,
            stride: 1,
            padding: Padding::Same,
        };
        let conv1 = conv_init(first, device);
        let bn1 = norm_init(c[0], device);
        let pool1 = pool_init(pool);

        let second = ConvGeometry {
            in_channels: c[0],
            out_channels: c[1],
            kernel: k,
            stride: 1,
            padding: Padding::Same,
        };
        let conv2 = conv_init(second, device);
        let bn2 = norm_init(c[1], device);
        let pool2 = pool_init(pool);

        let third = ConvGeometry {
            in_channels: c[1],
            out_channels: c[2],
            kernel: k,
            stride: 1,
            padding: Padding::Same,
        };
        let conv3 = conv_init(third, device);
        let bn3 = norm_init(c[2], device);
        let pool3 = pool_init(pool);

        let backbone = Backbone {
            conv1,
            bn1,
            pool1,
            conv2,
            bn2,
            pool2,
            conv3,
            bn3,
            pool3,
            relu: relu_new(),
            channels: [c[0], c[1], c[2]],
            kernel_size: k,
        };
        assert(backbone.channels() =~= self.channels@);
        backbone
    }
}

impl Backbone {
    /// Every layer has the geometry that the channels and the kernel size
    /// call for.
    #[verifier::type_invariant]
    closed spec fn inv(&self) -> bool {
        let c = self.channels;
        let k = self.kernel_size;
        &&& conv_geometry(self.conv1) == stage_conv(IMAGE_CHANNELS, c[0], k)
        &&& conv_geometry(self.conv2) == stage_conv(c[0], c[1], k)
        &&& conv_geometry(self.conv3) == stage_conv(c[1], c[2], k)
        &&& conv_geometry(self.conv1).wf()
        &&& conv_geometry(self.conv2).wf()
        &&& conv_geometry(self.conv3).wf()
        &&& norm_features(self.bn1) == c[0]
        &&& norm_features(self.bn2) == c[1]
        &&& norm_features(self.bn3) == c[2]
        &&& pool_geometry(self.pool1) == halving_pool()
        &&& pool_geometry(self.pool2) == halving_pool()
        &&& pool_geometry(self.pool3) == halving_pool()
    }

    /// The output channels of the three stages, shallowest first.
    pub closed spec fn channels(&self) -> Seq<usize> {
        self.channels@
    }

    /// The convolution of the given stage (0, 1 or 2).
    pub closed spec fn conv(&self, stage: int) -> ConvLayer {
        if stage == 0 {
            self.conv1
        } else if stage == 1 {
            self.conv2
        } else {
            self.conv3
        }
    }

    /// The batch normalisation of the given stage.
    pub closed spec fn norm(&self, stage: int) -> NormLayer {
        if stage == 0 {
            self.bn1
        } else if stage == 1 {
            self.bn2
        } else {
            self.bn3
        }
    }

    /// The pooling of the given stage.
    pub closed spec fn pool(&self, stage: int) -> MaxPool2d {
        if stage == 0 {
            self.pool1
        } else if stage == 1 {
            self.pool2
        } else {
            self.pool3
        }
    }

    /// The activation that all stages share.
    pub closed spec fn activation(&self) -> Relu {
        self.relu
    }

    /// What the given stage makes of `x`: the convolution, normalised,
    /// activated and pooled, in this order.
    pub open spec fn stage_output(&self, stage: int, x: Tensor4) -> Tensor4 {
        pooled(
            self.pool(stage),
            rectified(
                self.activation(),
                normalised(self.norm(stage), convolved(self.conv(stage), x)),
            ),
        )
    }

    /// The feature map of the given level for the image tensor `x`: the
    /// output of the stage of that level, applied to `x` for level 0 and to
    /// the feature map of the level before for levels 1 and 2.
    pub open spec fn feature_map(&self, x: Tensor4, level: int) -> Tensor4 {
        if level == 0 {
            self.stage_output(0, x)
        } else if level == 1 {
            self.stage_output(1, self.stage_output(0, x))
        } else {
            self.stage_output(2, self.stage_output(1, self.stage_output(0, x)))
        }
    }

    /// The kernel size of the convolutions.
    pub closed spec fn kernel_size(&self) -> usize {
        self.kernel_size
    }

    /// The largest channel count that occurs in the backbone.
    pub open spec fn widest(&self) -> int {
        larger(
            IMAGE_CHANNELS as int,
            larger(
                self.channels()[0] as int,
                larger(self.channels()[1] as int, self.channels()[2] as int),
            ),
        )
    }

    /// A shape that every tensor of a forward pass on `input` lies within:
    /// the widest channel count over the padded image.
    pub open spec fn workspace(&self, input: Shape4) -> Shape4 {
        Shape4 {
            batch: input.batch,
            channels: self.widest() as usize,
            height: (input.height + self.kernel_size() - 1) as usize,
            width: (input.width + self.kernel_size() - 1) as usize,
        }
    }

    /// Whether the backbone can work on an image tensor of the given shape:
    /// it has three channels, height and width are positive multiples of
    /// eight up to `MAX_EXTENT`, and the workspace is storable.
    pub open spec fn admits(&self, input: Shape4) -> bool {
        &&& input.channels == IMAGE_CHANNELS
        &&& 8 <= input.height <= MAX_EXTENT
        &&& 8 <= input.width <= MAX_EXTENT
        &&& input.height % 8 == 0
        &&& input.width % 8 == 0
        &&& self.workspace(input).storable()
    }

    /// The shape of the feature map of the given level (0, 1 or 2) for an
    /// image tensor of shape `input`.
    pub open spec fn feature(&self, input: Shape4, level: int) -> Shape4 {
        Shape4 {
            batch: input.batch,
            channels: self.channels()[level],
            height: (input.height as int / reduction(level)) as usize,
            width: (input.width as int / reduction(level)) as usize,
        }
    }

    /// Decides `admits`.
    pub fn accepts(&self, input: &Shape4) -> (ok: bool)
        ensures
            ok == self.admits(*input),
    {
        proof {
            use_type_invariant(self);
        }
        if input.channels != IMAGE_CHANNELS || input.height < 8 || input.height > MAX_EXTENT
            || input.width < 8 || input.width > MAX_EXTENT || input.height % 8 != 0 || input.width
            % 8 != 0 {
            return false;
        }
        let mut widest = IMAGE_CHANNELS;
        if self.channels[0] > widest {
            widest = self.channels[0];
        }
        if self.channels[1] > widest {
            widest = self.channels[1];
        }
        if self.channels[2] > widest {
            widest = self.channels[2];
        }
        let workspace = Shape4 {
            batch: input.batch,
            channels: widest,
            height: input.height + self.kernel_size - 1,
            width: input.width + self.kernel_size - 1,
        };
        workspace.is_storable()
    }

    /// One stage: convolution, batch normalisation, activation, pooling.
    fn stage(
        conv: &ConvLayer,
        norm: &NormLayer,
        relu: &Relu,
        pool: &MaxPool2d,
        x: Tensor4,
    ) -> (y: Tensor4)
        requires
            single_precision(x),
            conv_geometry(*conv).wf(),
            conv_geometry(*conv).padding is Same,
            conv_geometry(*conv).admits(shape_of(x)),
            norm_features(*norm) == conv_geometry(*conv).out_channels,
            pool_geometry(*pool) == halving_pool(),
            shape_of(x).height >= 2,
            shape_of(x).width >= 2,
            shape_of(x).height % 2 == 0,
            shape_of(x).width % 2 == 0,
        ensures
            y == pooled(*pool, rectified(*relu, normalised(*norm, convolved(*conv, x)))),
            single_precision(y),
            shape_of(y) == (Shape4 {
                batch: shape_of(x).batch,
                channels: conv_geometry(*conv).out_channels,
                height: (shape_of(x).height / 2) as usize,
                width: (shape_of(x).width / 2) as usize,
            }),
    {
        let x = relu_forward(relu, norm_forward(norm, conv_forward(conv, x)));
        pool_forward(pool, x)
    }

    /// The three feature maps of the single-precision image tensor `x`,
    /// shallowest first. Each stage works on what the stage before it gave;
    /// the map of level `i` has the channels of stage `i` and the height and
    /// width of `x` divided by 2, 4 and 8.
    pub fn forward(&self, x: Tensor4) -> (maps: Vec<Tensor4>)
        requires
            single_precision(x),
            self.admits(shape_of(x)),
        ensures
            maps@.len() == 3,
            forall|level: int|
                0 <= level < 3 ==> {
                    &&& (#[trigger] maps@[level]) == self.feature_map(x, level)
                    &&& shape_of(maps@[level]) == self.feature(shape_of(x), level)
                    &&& single_precision(maps@[level])
                },
    {
        proof {
            use_type_invariant(self);
        }
        let ghost image = x;
        let ghost input = shape_of(x);
        let ghost room = self.workspace(input);
        let mut outputs: Vec<Tensor4> = Vec::new();

        proof {
            let g = conv_geometry(self.conv1);
            lemma_storable_within(g.padded(input), room);
            lemma_storable_within(g.output(input), room);
        }
        let c3 = Self::stage(&self.conv1, &self.bn1, &self.relu, &self.pool1, x);

        proof {
            let g = conv_geometry(self.conv2);
            lemma_storable_within(g.padded(shape_of(c3)), room);
            lemma_storable_within(g.output(shape_of(c3)), room);
        }
        let c4 = Self::stage(&self.conv2, &self.bn2, &self.relu, &self.pool2, duplicate(&c3));

        proof {
            let g = conv_geometry(self.conv3);
            lemma_storable_within(g.padded(shape_of(c4)), room);
            lemma_storable_within(g.output(shape_of(c4)), room);
        }
        let c5 = Self::stage(&self.conv3, &self.bn3, &self.relu, &self.pool3, duplicate(&c4));

        outputs.push(c3);
        outputs.push(c4);
        outputs.push(c5);

        proof {
            assert(outputs@[0] == self.feature_map(image, 0));
            assert(outputs@[1] == self.feature_map(image, 1));
            assert(outputs@[2] == self.feature_map(image, 2));
            assert(shape_of(outputs@[0]) == self.feature(input, 0));
            assert(shape_of(outputs@[1]) == self.feature(input, 1));
            assert(shape_of(outputs@[2]) == self.feature(input, 2));
        }
        outputs
    }

    /// `forward` for any tensor: the feature maps where `x` is single
    /// precision and of a shape the backbone can work on; otherwise what is
    /// wrong with it, the precision first.
    pub fn try_forward(&self, x: Tensor4) -> (result: Result<Vec<Tensor4>, ForwardError>)
        ensures
            match result {
                Ok(maps) => {
                    &&& single_precision(x)
                    &&& self.admits(shape_of(x))
                    &&& maps@.len() == 3
                    &&& forall|level: int|
                        0 <= level < 3 ==> {
                            &&& (#[trigger] maps@[level]) == self.feature_map(x, level)
                            &&& shape_of(maps@[level]) == self.feature(shape_of(x), level)
                            &&& single_precision(maps@[level])
                        }
                },
                Err(ForwardError::Precision) => !single_precision(x),
                Err(ForwardError::ShapeMismatch(shapes)) => {
                    &&& single_precision(x)
                    &&& !self.admits(shape_of(x))
                    &&& shapes@ == seq![shape_of(x)]
                },
            },
    {
        if !is_single_precision(&x) {
            return Err(ForwardError::Precision);
        }
        let shape = read_shape(&x);
        if self.accepts(&shape) {
            Ok(self.forward(x))
        } else {
            let mut shapes: Vec<Shape4> = Vec::new();
            shapes.push(shape);
            assert(shapes@ =~= seq![shape_of(x)]);
            Err(ForwardError::ShapeMismatch(shapes))
        }
    }
}

/// What a neck is built from: the channel count of the fused maps, and the
/// channel counts of the three feature maps it receives, shallowest first.
#[derive(Clone, Copy, Debug)]
pub struct NeckConfig {
    pub out_channels: usize,
    pub in_channels: [usize; 3],
}

/// The three fused maps: `p3` at the resolution of the shallowest feature
/// map, `p5` at that of the deepest.
#[derive(Debug)]
pub struct FpnOutput {
    pub p3: Tensor4,
    pub p4: Tensor4,
    pub p5: Tensor4,
}

/// The convolutions of the top-down pass and of the bottom-up pass.
#[derive(Debug)]
pub struct Neck {
    lateral_conv0: ConvLayer,
    upsample_conv0: ConvLayer,
    upsample_conv1: ConvLayer,
    downsample_conv0: ConvLayer,
    path_aug_conv0: ConvLayer,
    downsample_conv1: ConvLayer,
    path_aug_conv1: ConvLayer,
    out_channels: usize,
    in_channels: [usize; 3],
}

impl NeckConfig {
    /// Whether a neck can be built: the channel counts are positive, the
    /// fused count added to any other fits a `usize`, and the weights of every
    /// convolution are storable.
    pub open spec fn valid(&self) -> bool {
        let out = self.out_channels;
        &&& out + self.in_channels[0] <= usize::MAX
        &&& out + self.in_channels[1] <= usize::MAX
        &&& out + out <= usize::MAX
        &&& lateral_conv(self.in_channels[2], out).wf()
        &&& fusing_conv((out + self.in_channels[1]) as usize, out).wf()
        &&& fusing_conv((out + self.in_channels[0]) as usize, out).wf()
        &&& fusing_conv((out + out) as usize, out).wf()
        &&& strided_conv(out).wf()
    }

    /// Whether the neck expects the channels that a backbone of the given
    /// configuration produces.
    pub open spec fn matches(&self, backbone: BackboneConfig) -> bool {
        &&& self.in_channels[0] == backbone.channels[0]
        &&& self.in_channels[1] == backbone.channels[1]
        &&& self.in_channels[2] == backbone.channels[2]
    }

    /// Decides `valid`.
    pub fn is_valid(&self) -> (ok: bool)
        ensures
            ok == self.valid(),
    {
        let out = self.out_channels;
        let c = &self.in_channels;
        if out > usize::MAX - c[0] || out > usize::MAX - c[1] || out > usize::MAX - out {
            return false;
        }
        let lateral0 = ConvGeometry {
            in_channels: c[2],
            out_channels: out,
            kernel: 1,
            stride: 1,
            padding: Padding::Valid,
        };
        let fuse4 = ConvGeometry {
            in_channels: out + c[1],
            out_channels: out,
            kernel: 3,
            stride: 1,
            padding: Padding::Same,
        };
        let fuse3 = ConvGeometry {
            in_channels: out + c[0],
            out_channels: out,
            kernel: 3,
            stride: 1,
            padding: Padding::Same,
        };
        let augment = ConvGeometry {
            in_channels: out + out,
            out_channels: out,
            kernel: 3,
            stride: 1,
            padding: Padding::Same,
        };
        let down = ConvGeometry {
            in_channels: out,
            out_channels: out,
            kernel: 3,
            stride: 2,
            padding: Padding::Explicit(1),
        };
        lateral0.is_wf() && fuse4.is_wf() && fuse3.is_wf() && augment.is_wf()
            && down.is_wf()
    }

    /// Decides `matches`.
    pub fn fits(&self, backbone: &BackboneConfig) -> (ok: bool)
        ensures
            ok == self.matches(*backbone),
    {
        self.in_channels[0] == backbone.channels[0] && self.in_channels[1] == backbone.channels[1]
            && self.in_channels[2] == backbone.channels[2]
    }

    /// Builds the neck, with freshly drawn weights, on `device`.
    pub fn init(&self, device: &NdArrayDevice) -> (neck: Neck)
        requires
            self.valid(),
        ensures
            neck.out_channels() == self.out_channels,
            neck.in_channels() == self.in_channels@,
            conv_geometry(neck.lateral()) == lateral_conv(self.in_channels[2], self.out_channels),
            conv_geometry(neck.top_down(1)) == fusing_conv(
                (self.out_channels + self.in_channels[1]) as usize,
                self.out_channels,
            ),
            conv_geometry(neck.top_down(0)) == fusing_conv(
                (self.out_channels + self.in_channels[0]) as usize,
                self.out_channels,
            ),
            forall|level: int|
                0 <= level < 2 ==> conv_geometry(#[trigger] neck.halving(level)) == strided_conv(
                    self.out_channels,
                ),
            forall|level: int|
                1 <= level < 3 ==> conv_geometry(#[trigger] neck.bottom_up(level)) == fusing_conv(
                    (self.out_channels + self.out_channels) as usize,
                    self.out_channels,
                ),
    {
        let c = &self.in_channels;
        let out = self.out_channels;

        let lateral_conv0 = conv_init(
            ConvGeometry {
                in_channels: c[2],
                out_channels: out,
                kernel: 1,
                stride: 1,
                padding: Padding::Valid,
            },
            device,
        );
        let upsample_conv0 = conv_init(
            ConvGeometry {
                in_channels: out + c[1],
                out_channels: out,
                kernel: 3,
                stride: 1,
                padding: Padding::Same,
            },
            device,
        );

        let upsample_conv1 = conv_init(
            ConvGeometry {
                in_channels: out + c[0],
                out_channels: out,
                kernel: 3,
                stride: 1,
                padding: Padding::Same,
            },
            device,
        );

        let downsample_conv0 = conv_init(
            ConvGeometry {
                in_channels: out,
                out_channels: out,
                kernel: 3,
                stride: 2,
                padding: Padding::Explicit(1),
            },
            device,
        );
        let path_aug_conv0 = conv_init(
            ConvGeometry {
                in_channels: out + out,
                out_channels: out,
                kernel: 3,
                stride: 1,
                padding: Padding::Same,
            },
            device,
        );

        let downsample_conv1 = conv_init(
            ConvGeometry {
                in_channels: out,
                out_channels: out,
                kernel: 3,
                stride: 2,
                padding: Padding::Explicit(1),
            },
            device,
        );
        let path_aug_conv1 = conv_init(
            ConvGeometry {
                in_channels: out + out,
                out_channels: out,
                kernel: 3,
                stride: 1,
                padding: Padding::Same,
            },
            device,
        );

        let neck = Neck {
            lateral_conv0,
            upsample_conv0,
            upsample_conv1,
            downsample_conv0,
            path_aug_conv0,
            downsample_conv1,
            path_aug_conv1,
            out_channels: out,
            in_channels: [c[0], c[1], c[2]],
        };
        assert(neck.in_channels() =~= self.in_channels@);
        neck
    }
}

impl Neck {
    /// Every convolution has the geometry that the channel counts call for.
    #[verifier::type_invariant]
    closed spec fn inv(&self) -> bool {
        let c = self.in_channels;
        let out = self.out_channels;
        &&& out + c[0] <= usize::MAX
        &&& out + c[1] <= usize::MAX
        &&& out + out <= usize::MAX
        &&& conv_geometry(self.lateral_conv0) == lateral_conv(c[2], out)
        &&& conv_geometry(self.upsample_conv0) == fusing_conv((out + c[1]) as usize, out)
        &&& conv_geometry(self.upsample_conv1) == fusing_conv((out + c[0]) as usize, out)
        &&& conv_geometry(self.downsample_conv0) == strided_conv(out)
        &&& conv_geometry(self.path_aug_conv0) == fusing_conv((out + out) as usize, out)
        &&& conv_geometry(self.downsample_conv1) == strided_conv(out)
        &&& conv_geometry(self.path_aug_conv1) == fusing_conv((out + out) as usize, out)
        &&& conv_geometry(self.lateral_conv0).wf()
        &&& conv_geometry(self.upsample_conv0).wf()
        &&& conv_geometry(self.upsample_conv1).wf()
        &&& conv_geometry(self.downsample_conv0).wf()
        &&& conv_geometry(self.path_aug_conv0).wf()
    }

    /// The channel count of the fused maps.
    pub closed spec fn out_channels(&self) -> usize {
        self.out_channels
    }

    /// The channel counts of the feature maps that the neck receives,
    /// shallowest first.
    pub closed spec fn in_channels(&self) -> Seq<usize> {
        self.in_channels@
    }

    /// The one-by-one convolution that projects the deepest feature map.
    pub closed spec fn lateral(&self) -> ConvLayer {
        self.lateral_conv0
    }

    /// The convolution that fuses top-down into the given level: 1 for the
    /// middle map, 0 for the shallowest.
    pub closed spec fn top_down(&self, level: int) -> ConvLayer {
        if level == 1 {
            self.upsample_conv0
        } else {
            self.upsample_conv1
        }
    }

    /// The strided convolution that halves the fused map of the given level
    /// on the way down: 0 for the shallowest map, 1 for the middle.
    pub closed spec fn halving(&self, level: int) -> ConvLayer {
        if level == 0 {
            self.downsample_conv0
        } else {
            self.downsample_conv1
        }
    }

    /// The convolution that fuses bottom-up into the given level: 1 for the
    /// middle map, 2 for the deepest.
    pub closed spec fn bottom_up(&self, level: int) -> ConvLayer {
        if level == 1 {
            self.path_aug_conv0
        } else {
            self.path_aug_conv1
        }
    }

    /// The deepest feature map projected to the fused channel count.
    pub open spec fn p5_latent(&self, c5: Tensor4) -> Tensor4 {
        convolved(self.lateral(), c5)
    }

    /// The middle result of the top-down pass: the projected deepest map,
    /// enlarged to the size of `c4` and stacked before `c4`, then fused.
    pub open spec fn p4_latent(&self, c4: Tensor4, c5: Tensor4) -> Tensor4 {
        convolved(
            self.top_down(1),
            stacked(
                resampled(self.p5_latent(c5), shape_of(c4).height, shape_of(c4).width),
                c4,
            ),
        )
    }

    /// The fused map of the shallowest level: the middle result of the
    /// top-down pass, enlarged to the size of `c3` and stacked before `c3`,
    /// then fused.
    pub open spec fn p3(&self, c3: Tensor4, c4: Tensor4, c5: Tensor4) -> Tensor4 {
        convolved(
            self.top_down(0),
            stacked(
                resampled(self.p4_latent(c4, c5), shape_of(c3).height, shape_of(c3).width),
                c3,
            ),
        )
    }

    /// The fused map of the middle level: the fused shallowest map halved and
    /// stacked before the middle result of the top-down pass, then fused.
    pub open spec fn p4(&self, c3: Tensor4, c4: Tensor4, c5: Tensor4) -> Tensor4 {
        convolved(
            self.bottom_up(1),
            stacked(convolved(self.halving(0), self.p3(c3, c4, c5)), self.p4_latent(c4, c5)),
        )
    }

    /// The fused map of the deepest level: the fused middle map halved and
    /// stacked before the projected deepest map, then fused.
    pub open spec fn p5(&self, c3: Tensor4, c4: Tensor4, c5: Tensor4) -> Tensor4 {
        convolved(
            self.bottom_up(2),
            stacked(convolved(self.halving(1), self.p4(c3, c4, c5)), self.p5_latent(c5)),
        )
    }

    /// The largest channel count among the received and the fused maps.
    pub open spec fn widest(&self) -> int {
        larger(
            self.out_channels() as int,
            larger(
                self.in_channels()[0] as int,
                larger(self.in_channels()[1] as int, self.in_channels()[2] as int),
            ),
        )
    }

    /// A shape that every tensor of a forward pass lies within, where
    /// `shallowest` is the shape of the shallowest feature map: two maps
    /// stacked along the channels, over the map padded by one.
    pub open spec fn workspace(&self, shallowest: Shape4) -> Shape4 {
        Shape4 {
            batch: shallowest.batch,
            channels: (self.out_channels() + self.widest()) as usize,
            height: (shallowest.height + 2) as usize,
            width: (shallowest.width + 2) as usize,
        }
    }

    /// Whether the neck can work on feature maps of the given shapes,
    /// shallowest first: there are three of one batch size, each with the
    /// channels the neck expects, each half the height and width of the one
    /// before (rounded up), and the workspace is storable.
    pub open spec fn admits(&self, shapes: Seq<Shape4>) -> bool {
        &&& shapes.len() == 3
        &&& forall|level: int|
            0 <= level < 3 ==> (#[trigger] shapes[level]).channels == self.in_channels()[level]
        &&& shapes[1].batch == shapes[0].batch
        &&& shapes[2].batch == shapes[0].batch
        &&& shapes[0].within_extent()
        &&& shapes[1].height == (shapes[0].height + 1) / 2
        &&& shapes[1].width == (shapes[0].width + 1) / 2
        &&& shapes[2].height == (shapes[1].height + 1) / 2
        &&& shapes[2].width == (shapes[1].width + 1) / 2
        &&& self.out_channels() + self.widest() <= usize::MAX
        &&& self.workspace(shapes[0]).storable()
    }

    /// The shape of the fused map that goes with a feature map of the given
    /// shape: the same batch, height and width, with the fused channel count.
    pub open spec fn fused(&self, feature: Shape4) -> Shape4 {
        with_channels(feature, self.out_channels())
    }

    /// Decides `admits`.
    pub fn accepts(&self, shapes: &Vec<Shape4>) -> (ok: bool)
        ensures
            ok == self.admits(shapes@),
    {
        proof {
            use_type_invariant(self);
        }
        if shapes.len() != 3 {
            return false;
        }
        let c3 = shapes[0];
        let c4 = shapes[1];
        let c5 = shapes[2];
        if c3.channels != self.in_channels[0] || c4.channels != self.in_channels[1] || c5.channels
            != self.in_channels[2] {
            assert(!(shapes@[0].channels == self.in_channels()[0] && shapes@[1].channels
                == self.in_channels()[1] && shapes@[2].channels == self.in_channels()[2]));
            return false;
        }
        if c4.batch != c3.batch || c5.batch != c3.batch {
            return false;
        }
        if c3.height < 1 || c3.height > MAX_EXTENT || c3.width < 1 || c3.width > MAX_EXTENT {
            return false;
        }
        if c4.height != (c3.height + 1) / 2 || c4.width != (c3.width + 1) / 2 {
            return false;
        }
        if c5.height != (c4.height + 1) / 2 || c5.width != (c4.width + 1) / 2 {
            return false;
        }
        let mut widest = self.out_channels;
        if self.in_channels[0] > widest {
            widest = self.in_channels[0];
        }
        if self.in_channels[1] > widest {
            widest = self.in_channels[1];
        }
        if self.in_channels[2] > widest {
            widest = self.in_channels[2];
        }
        if self.out_channels > usize::MAX - widest {
            return false;
        }
        let workspace = Shape4 {
            batch: c3.batch,
            channels: self.out_channels + widest,
            height: c3.height + 2,
            width: c3.width + 2,
        };
        workspace.is_storable()
    }

    /// Stacks `first` before `second` along the channels and fuses the two
    /// with `conv`.
    fn fuse(conv: &ConvLayer, first: Tensor4, second: Tensor4, Ghost(room): Ghost<Shape4>) -> (y:
        Tensor4)
        requires
            single_precision(first),
            single_precision(second),
            conv_geometry(*conv).wf(),
            conv_geometry(*conv) == fusing_conv(
                conv_geometry(*conv).in_channels,
                conv_geometry(*conv).out_channels,
            ),
            shape_of(first).channels + shape_of(second).channels == conv_geometry(
                *conv,
            ).in_channels,
            with_channels(shape_of(first), 0) == with_channels(shape_of(second), 0),
            shape_of(first).within_extent(),
            shape_of(first).batch >= 1,
            shape_of(first).channels >= 1,
            room.storable(),
            shape_of(first).batch <= room.batch,
            conv_geometry(*conv).in_channels <= room.channels,
            conv_geometry(*conv).out_channels <= room.channels,
            shape_of(first).height + 2 <= room.height,
            shape_of(first).width + 2 <= room.width,
        ensures
            y == convolved(*conv, stacked(first, second)),
            single_precision(y),
            shape_of(y) == with_channels(shape_of(first), conv_geometry(*conv).out_channels),
    {
        let ghost g = conv_geometry(*conv);
        let ghost both = with_channels(shape_of(first), g.in_channels);
        proof {
            lemma_storable_within(both, room);
            lemma_storable_within(g.padded(both), room);
            lemma_storable_within(g.output(both), room);
        }
        conv_forward(conv, concat_channels(first, second))
    }

    /// The fused maps of the three single-precision feature maps `features`,
    /// shallowest first.
    ///
    /// Top-down, the deepest map is projected to the fused channel count,
    /// enlarged to the size of the middle map and fused with it; the result is
    /// enlarged to the size of the shallowest map and fused with that, which
    /// gives `p3`. Bottom-up, `p3` is halved and fused with the middle result
    /// into `p4`, and `p4` is halved and fused with the projected deepest map
    /// into `p5`. Wherever two tensors are fused, the one that was resized
    /// comes first. Each fused map has the batch, height and width of the
    /// feature map of its level.
    pub fn forward(&self, features: Vec<Tensor4>) -> (out: FpnOutput)
        requires
            all_single(features@),
            self.admits(shapes_of(features@)),
        ensures
            out.p3 == self.p3(features@[0], features@[1], features@[2]),
            out.p4 == self.p4(features@[0], features@[1], features@[2]),
            out.p5 == self.p5(features@[0], features@[1], features@[2]),
            shape_of(out.p3) == self.fused(shape_of(features@[0])),
            shape_of(out.p4) == self.fused(shape_of(features@[1])),
            shape_of(out.p5) == self.fused(shape_of(features@[2])),
            single_precision(out.p3),
            single_precision(out.p4),
            single_precision(out.p5),
    {
        proof {
            use_type_invariant(self);
        }
        let ghost shapes = shapes_of(features@);
        let ghost room = self.workspace(shapes[0]);
        assert(shapes[0] == shape_of(features@[0]));
        assert(shapes[1] == shape_of(features@[1]));
        assert(shapes[2] == shape_of(features@[2]));
        let c3 = &features[0];
        let c4 = &features[1];
        let c5 = &features[2];

        proof {
            let g = conv_geometry(self.lateral_conv0);
            lemma_storable_within(shape_of(*c5), room);
            lemma_storable_within(g.output(shape_of(*c5)), room);
            assert(g.padded(shape_of(*c5)) == shape_of(*c5));
        }
        let p5_latent = conv_forward(&self.lateral_conv0, duplicate(c5));

        let s4 = read_shape(c4);
        proof {
            lemma_storable_within(shape_of(p5_latent), room);
            lemma_storable_within(with_channels(s4, self.out_channels), room);
        }
        let p5_upsampled = upsample_nearest(duplicate(&p5_latent), s4.height, s4.width);
        let p4_latent = Self::fuse(&self.upsample_conv0, p5_upsampled, duplicate(c4), Ghost(room));

        let s3 = read_shape(c3);
        proof {
            lemma_storable_within(shape_of(p4_latent), room);
            lemma_storable_within(with_channels(s3, self.out_channels), room);
        }
        let p4_upsampled = upsample_nearest(duplicate(&p4_latent), s3.height, s3.width);
        let p3_out = Self::fuse(&self.upsample_conv1, p4_upsampled, duplicate(c3), Ghost(room));

        proof {
            let g = conv_geometry(self.downsample_conv0);
            lemma_storable_within(g.padded(shape_of(p3_out)), room);
            lemma_storable_within(g.output(shape_of(p3_out)), room);
        }
        let n4_latent = conv_forward(&self.downsample_conv0, duplicate(&p3_out));
        let p4_out = Self::fuse(&self.path_aug_conv0, n4_latent, p4_latent, Ghost(room));

        proof {
            let g = conv_geometry(self.downsample_conv1);
            lemma_storable_within(g.padded(shape_of(p4_out)), room);
            lemma_storable_within(g.output(shape_of(p4_out)), room);
        }
        let n5_latent = conv_forward(&self.downsample_conv1, duplicate(&p4_out));
        let p5_out = Self::fuse(&self.path_aug_conv1, n5_latent, p5_latent, Ghost(room));

        FpnOutput { p3: p3_out, p4: p4_out, p5: p5_out }
    }

    /// `forward` for any list of tensors: the fused maps where every tensor
    /// of `features` is single precision and the neck can work on their
    /// shapes; otherwise what is wrong with them, the precision first.
    pub fn try_forward(&self, features: Vec<Tensor4>) -> (result: Result<FpnOutput, ForwardError>)
        ensures
            match result {
                Ok(out) => {
                    &&& all_single(features@)
                    &&& self.admits(shapes_of(features@))
                    &&& out.p3 == self.p3(features@[0], features@[1], features@[2])
                    &&& out.p4 == self.p4(features@[0], features@[1], features@[2])
                    &&& out.p5 == self.p5(features@[0], features@[1], features@[2])
                    &&& shape_of(out.p3) == self.fused(shape_of(features@[0]))
                    &&& shape_of(out.p4) == self.fused(shape_of(features@[1]))
                    &&& shape_of(out.p5) == self.fused(shape_of(features@[2]))
                    &&& single_precision(out.p3)
                    &&& single_precision(out.p4)
                    &&& single_precision(out.p5)
                },
                Err(ForwardError::Precision) => !all_single(features@),
                Err(ForwardError::ShapeMismatch(shapes)) => {
                    &&& all_single(features@)
                    &&& !self.admits(shapes_of(features@))
                    &&& shapes@ == shapes_of(features@)
                },
            },
    {
        let n = features.len();
        let mut shapes: Vec<Shape4> = Vec::new();
        let mut i: usize = 0;
        while i < n
            invariant
                n == features@.len(),
                i <= n,
                shapes@.len() == i,
                forall|k: int| 0 <= k < i ==> shapes@[k] == shape_of(#[trigger] features@[k]),
                forall|k: int| 0 <= k < i ==> single_precision(#[trigger] features@[k]),
            decreases n - i,
        {
            if !is_single_precision(&features[i]) {
                return Err(ForwardError::Precision);
            }
            shapes.push(read_shape(&features[i]));
            i = i + 1;
        }
        assert(shapes@ =~= shapes_of(features@));
        if self.accepts(&shapes) {
            Ok(self.forward(features))
        } else {
            Err(ForwardError::ShapeMismatch(shapes))
        }
    }
}

/// Halving a multiple of eight three times leaves no remainder: half of it
/// is four eighths, a quarter two eighths, and halving with rounding up is
/// then plain halving.
pub proof fn lemma_multiple_of_eight(n: int)
    requires
        n >= 8,
        n % 8 == 0,
    ensures
        n / 8 >= 1,
        n / 2 == 4 * (n / 8),
        n / 4 == 2 * (n / 8),
        (n / 2 + 1) / 2 == n / 4,
        (n / 4 + 1) / 2 == n / 8,
{
    let q = n / 8;
    assert(n == 8 * q);
    assert(n / 2 == 4 * q);
    assert(n / 4 == 2 * q);
    assert((4 * q + 1) / 2 == 2 * q);
    assert((2 * q + 1) / 2 == q);
}

/// The three feature shapes of an image shape that a backbone can work on
/// are each at least one by one and at most `MAX_EXTENT`, and each level is
/// half the height and width of the level before.
pub proof fn lemma_feature_shapes_halve(backbone: Backbone, input: Shape4)
    requires
        backbone.admits(input),
    ensures
        backbone.feature(input, 0).within_extent(),
        backbone.feature(input, 0).height == input.height / 2,
        backbone.feature(input, 0).width == input.width / 2,
        backbone.feature(input, 1).height == (backbone.feature(input, 0).height + 1) / 2,
        backbone.feature(input, 1).width == (backbone.feature(input, 0).width + 1) / 2,
        backbone.feature(input, 2).height == (backbone.feature(input, 1).height + 1) / 2,
        backbone.feature(input, 2).width == (backbone.feature(input, 1).width + 1) / 2,
{
    let (h, w) = (input.height as int, input.width as int);
    lemma_multiple_of_eight(h);
    lemma_multiple_of_eight(w);
    assert(reduction(0) == 2 && reduction(1) == 4 && reduction(2) == 8);
    assert(backbone.feature(input, 0).height == h / 2);
    assert(backbone.feature(input, 0).width == w / 2);
    assert(backbone.feature(input, 1).height == h / 4);
    assert(backbone.feature(input, 1).width == w / 4);
    assert(backbone.feature(input, 2).height == h / 8);
    assert(backbone.feature(input, 2).width == w / 8);
}

/// The feature maps of a backbone suit a neck that expects the backbone's
/// channels: for every image shape that the backbone can work on, the neck
/// can work on the three feature shapes, provided its workspace is storable,
/// and the fused map of each level has the batch of the image, the fused
/// channel count, and the height and width of the image divided by 2, 4 and 8.
pub proof fn lemma_features_suit_neck(backbone: Backbone, neck: Neck, input: Shape4)
    requires
        backbone.admits(input),
        neck.in_channels() == backbone.channels(),
        neck.in_channels().len() == 3,
        neck.out_channels() + neck.widest() <= usize::MAX,
        neck.workspace(backbone.feature(input, 0)).storable(),
    ensures
        neck.admits(
            seq![
                backbone.feature(input, 0),
                backbone.feature(input, 1),
                backbone.feature(input, 2),
            ],
        ),
        forall|level: int|
            0 <= level < 3 ==> #[trigger] neck.fused(backbone.feature(input, level)) == (Shape4 {
                batch: input.batch,
                channels: neck.out_channels(),
                height: (input.height as int / reduction(level)) as usize,
                width: (input.width as int / reduction(level)) as usize,
            }),
{
    lemma_feature_shapes_halve(backbone, input);
    let f0 = backbone.feature(input, 0);
    let f1 = backbone.feature(input, 1);
    let f2 = backbone.feature(input, 2);
    let shapes = seq![f0, f1, f2];
    assert(shapes.len() == 3);
    assert(shapes[0] == f0 && shapes[1] == f1 && shapes[2] == f2);
    assert(f0.channels == neck.in_channels()[0]);
    assert(f1.channels == neck.in_channels()[1]);
    assert(f2.channels == neck.in_channels()[2]);
    assert forall|level: int| 0 <= level < 3 implies (#[trigger] shapes[level]).channels
        == neck.in_channels()[level] by {
        if level == 0 {
        } else if level == 1 {
        } else {
        }
    }
    assert(f1.batch == f0.batch && f2.batch == f0.batch);
    assert(neck.admits(shapes));
    assert forall|level: int| 0 <= level < 3 implies #[trigger] neck.fused(
        backbone.feature(input, level),
    ) == (Shape4 {
        batch: input.batch,
        channels: neck.out_channels(),
        height: (input.height as int / reduction(level)) as usize,
        width: (input.width as int / reduction(level)) as usize,
    }) by {
    }
}

} // verus!
