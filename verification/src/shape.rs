//! Shapes of four-dimensional tensors, and the arithmetic by which
//! convolution and pooling layers transform them.
use vstd::prelude::*;

verus! {

/// The largest height or width that a layer is asked to work on. Up to here
/// the single-precision arithmetic by which the tensor engine derives
/// paddings and source coordinates is exact.
pub const MAX_EXTENT: usize = 0x100_0000;

/// The number of bytes that one tensor element takes.
pub const ELEMENT_BYTES: usize = 4;

/// The extents of a tensor laid out as batch, channels, height, width.
#[derive(Clone, Copy, Debug, PartialEq, Eq, Structural)]
pub struct Shape4 {
    pub batch: usize,
    pub channels: usize,
    pub height: usize,
    pub width: usize,
}

/// How a convolution pads its input on each side of height and width.
#[derive(Clone, Copy, Debug, PartialEq, Eq, Structural)]
pub enum Padding {
    /// As much as keeps the output the size of the input.
    Same,
    /// None.
    Valid,
    /// The given number of rows and columns.
    Explicit(usize),
}

/// A two-dimensional convolution with a square kernel, equal strides along
/// height and width, no dilation and a single group.
#[derive(Clone, Copy, Debug, PartialEq, Eq, Structural)]
pub struct ConvGeometry {
    pub in_channels: usize,
    pub out_channels: usize,
    pub kernel: usize,
    pub stride: usize,
    pub padding: Padding,
}

/// A two-dimensional pooling with a square window, equal strides along
/// height and width, no padding and no dilation.
#[derive(Clone, Copy, Debug, PartialEq, Eq, Structural)]
pub struct PoolGeometry {
    pub kernel: usize,
    pub stride: usize,
}

/// The number of positions at which a window of `kernel` cells, moved in
/// steps of `stride`, fits into `size` cells padded by `padding` on each side.
pub open spec fn window_count(size: int, kernel: int, stride: int, padding: int) -> int {
    (size + 2 * padding - kernel) / stride + 1
}

impl Shape4 {
    /// The number of elements.
    pub open spec fn volume(self) -> int {
        self.batch * self.channels * self.height * self.width
    }

    /// Whether a tensor of this shape has at least one element along every
    /// axis and takes no more than `isize::MAX` bytes.
    pub open spec fn storable(self) -> bool {
        &&& self.batch >= 1
        &&& self.channels >= 1
        &&& self.height >= 1
        &&& self.width >= 1
        &&& ELEMENT_BYTES * self.volume() <= isize::MAX
    }

    /// Whether height and width are both between 1 and `MAX_EXTENT`.
    pub open spec fn within_extent(self) -> bool {
        &&& 1 <= self.height <= MAX_EXTENT
        &&& 1 <= self.width <= MAX_EXTENT
    }

    /// Whether `self` is no larger than `other` along any axis.
    pub open spec fn within(self, other: Shape4) -> bool {
        &&& self.batch <= other.batch
        &&& self.channels <= other.channels
        &&& self.height <= other.height
        &&& self.width <= other.width
    }

    /// Decides `storable`.
    pub fn is_storable(&self) -> (ok: bool)
        ensures
            ok == self.storable(),
    {
        if self.batch == 0 || self.channels == 0 || self.height == 0 || self.width == 0 {
            return false;
        }
        let limit: usize = (isize::MAX as usize) / ELEMENT_BYTES;
        let planes = match bounded_product(self.batch, self.channels, limit) {
            Some(p) => p,
            None => {
                proof {
                    lemma_product_grows(self.batch * self.channels, self.height as int);
                    lemma_product_grows(
                        self.batch * self.channels * self.height,
                        self.width as int,
                    );
                }
                return false;
            },
        };
        let rows = match bounded_product(planes, self.height, limit) {
            Some(r) => r,
            None => {
                proof {
                    lemma_product_grows(
                        self.batch * self.channels * self.height,
                        self.width as int,
                    );
                }
                return false;
            },
        };
        bounded_product(rows, self.width, limit).is_some()
    }
}

/// The product of `a` and `b` where it does not exceed `limit`.
fn bounded_product(a: usize, b: usize, limit: usize) -> (product: Option<usize>)
    ensures
        match product {
            Some(p) => p == a * b && a * b <= limit,
            None => a * b > limit,
        },
{
    match a.checked_mul(b) {
        Some(p) => if p <= limit {
            Some(p)
        } else {
            None
        },
        None => None,
    }
}

/// Multiplying a non-negative number by a positive one does not make it
/// smaller.
pub proof fn lemma_product_grows(a: int, b: int)
    requires
        0 <= a,
        1 <= b,
    ensures
        a <= a * b,
{
    assert(a <= a * b) by (nonlinear_arith)
        requires
            0 <= a,
            1 <= b,
    ;
}

/// A shape that lies within a storable shape, and has an element along
/// every axis, is storable.
pub proof fn lemma_storable_within(small: Shape4, large: Shape4)
    requires
        small.within(large),
        large.storable(),
        small.batch >= 1,
        small.channels >= 1,
        small.height >= 1,
        small.width >= 1,
    ensures
        small.storable(),
{
    let (a, b, c, d) = (
        small.batch as int,
        small.channels as int,
        small.height as int,
        small.width as int,
    );
    let (p, q, r, s) = (
        large.batch as int,
        large.channels as int,
        large.height as int,
        large.width as int,
    );
    assert(a * b <= p * q) by (nonlinear_arith)
        requires
            0 <= a <= p,
            0 <= b <= q,
    ;
    assert(a * b * c <= p * q * r) by (nonlinear_arith)
        requires
            0 <= a * b <= p * q,
            0 <= c <= r,
    ;
    assert(a * b * c * d <= p * q * r * s) by (nonlinear_arith)
        requires
            0 <= a * b * c <= p * q * r,
            0 <= d <= s,
    ;
}

impl ConvGeometry {
    /// The shape of the weights: one kernel per pair of output and input
    /// channel.
    pub open spec fn weights(self) -> Shape4 {
        Shape4 {
            batch: self.out_channels,
            channels: self.in_channels,
            height: self.kernel,
            width: self.kernel,
        }
    }

    /// Whether a layer of this geometry can be made: there is at least one
    /// channel on either side, kernel and stride are positive, the weights are
    /// storable, padding that keeps the size goes with an odd kernel moved in
    /// steps of one, and explicit padding is no more than `MAX_EXTENT`.
    pub open spec fn wf(self) -> bool {
        &&& 1 <= self.kernel <= MAX_EXTENT
        &&& 1 <= self.stride
        &&& self.weights().storable()
        &&& self.padding is Same ==> self.kernel % 2 == 1 && self.stride == 1
        &&& self.padding matches Padding::Explicit(p) ==> p <= MAX_EXTENT
    }

    /// The number of rows and columns added on each side.
    pub open spec fn margin(self) -> int {
        match self.padding {
            Padding::Same => (self.kernel - 1) / 2,
            Padding::Valid => 0,
            Padding::Explicit(p) => p as int,
        }
    }

    /// The input as the convolution pads it.
    pub open spec fn padded(self, input: Shape4) -> Shape4 {
        Shape4 {
            batch: input.batch,
            channels: input.channels,
            height: (input.height + 2 * self.margin()) as usize,
            width: (input.width + 2 * self.margin()) as usize,
        }
    }

    /// The shape of the output for the given input.
    pub open spec fn output(self, input: Shape4) -> Shape4 {
        Shape4 {
            batch: input.batch,
            channels: self.out_channels,
            height: window_count(
                input.height as int,
                self.kernel as int,
                self.stride as int,
                self.margin(),
            ) as usize,
            width: window_count(
                input.width as int,
                self.kernel as int,
                self.stride as int,
                self.margin(),
            ) as usize,
        }
    }

    /// Whether the convolution can be applied to an input of the given shape:
    /// the channels agree, the padded input holds at least one window, and
    /// padded input and output are storable.
    pub open spec fn admits(self, input: Shape4) -> bool {
        &&& input.channels == self.in_channels
        &&& input.within_extent()
        &&& input.height + 2 * self.margin() >= self.kernel
        &&& input.width + 2 * self.margin() >= self.kernel
        &&& self.padded(input).storable()
        &&& self.output(input).storable()
    }

    /// Decides `wf`.
    pub fn is_wf(&self) -> (ok: bool)
        ensures
            ok == self.wf(),
    {
        let weights = Shape4 {
            batch: self.out_channels,
            channels: self.in_channels,
            height: self.kernel,
            width: self.kernel,
        };
        let padding_fits = match self.padding {
            Padding::Same => self.kernel % 2 == 1 && self.stride == 1,
            Padding::Valid => true,
            Padding::Explicit(p) => p <= MAX_EXTENT,
        };
        1 <= self.kernel && self.kernel <= MAX_EXTENT && 1 <= self.stride && weights.is_storable()
            && padding_fits
    }
}

impl PoolGeometry {
    /// Whether a layer of this geometry can be made.
    pub open spec fn wf(self) -> bool {
        &&& 1 <= self.kernel
        &&& 1 <= self.stride
    }

    /// The shape of the output for the given input.
    pub open spec fn output(self, input: Shape4) -> Shape4 {
        Shape4 {
            batch: input.batch,
            channels: input.channels,
            height: window_count(input.height as int, self.kernel as int, self.stride as int, 0)
                as usize,
            width: window_count(input.width as int, self.kernel as int, self.stride as int, 0)
                as usize,
        }
    }

    /// Whether the pooling can be applied to an input of the given shape: the
    /// input is storable and holds at least one window.
    pub open spec fn admits(self, input: Shape4) -> bool {
        &&& input.within_extent()
        &&& input.storable()
        &&& input.height >= self.kernel
        &&& input.width >= self.kernel
    }
}

/// With a well-formed geometry and padding that keeps the size, the output
/// has the height and width of the input.
pub proof fn lemma_same_padding_keeps_size(geometry: ConvGeometry, input: Shape4)
    requires
        geometry.wf(),
        geometry.padding is Same,
        input.within_extent(),
    ensures
        geometry.output(input).height == input.height,
        geometry.output(input).width == input.width,
        geometry.padded(input).height == input.height + geometry.kernel - 1,
        geometry.padded(input).width == input.width + geometry.kernel - 1,
{
}

/// A window of two moved in steps of two halves an even size.
pub proof fn lemma_halving_window(size: int)
    requires
        size >= 2,
        size % 2 == 0,
    ensures
        window_count(size, 2, 2, 0) == size / 2,
{
}

/// A window of three moved in steps of two over a size padded by one gives
/// half the size, rounded up.
pub proof fn lemma_strided_window(size: int)
    requires
        size >= 1,
    ensures
        window_count(size, 3, 2, 1) == (size + 1) / 2,
{
}

} // verus!
