//! The boundary to the `image` crate: decoded images are carried as opaque
//! values, and only their dimensions and the bytes of their pixels are ever
//! read.
use image::DynamicImage;
use vstd::prelude::*;

verus! {

/// A decoded image of any colour type, as the `image` crate holds it.
#[verifier::external_type_specification]
#[verifier::external_body]
pub struct ExDynamicImage(DynamicImage);

/// The sampling filters that the `image` crate offers for resizing.
#[derive(Clone, Copy, Debug)]
pub enum Filter {
    Nearest,
    Triangle,
    CatmullRom,
    Gaussian,
    Lanczos3,
}

/// An image of 8-bit RGB pixels, as the `image` crate holds it.
#[verifier::external_body]
#[derive(Debug)]
pub struct Rgb8Image {
    pub image: image::RgbImage,
}

/// What `ImageBuffer::width` returns for `image`.
pub uninterp spec fn rgb_width(image: Rgb8Image) -> u32;

/// What `ImageBuffer::height` returns for `image`.
pub uninterp spec fn rgb_height(image: Rgb8Image) -> u32;

/// What `ImageBuffer::get_pixel` returns for column `x` of row `y` of
/// `image`: the red, green and blue byte of that pixel.
pub uninterp spec fn rgb_at(image: Rgb8Image, x: u32, y: u32) -> [u8; 3];

/// What `DynamicImage::to_rgb8` returns for `img`. The conversion is a cast
/// of every channel, with a fixed weighting where grey becomes colour or
/// colour grey, so the result is a function of the image.
pub uninterp spec fn rgb_of(img: DynamicImage) -> Rgb8Image;

/// Whether `out` is an image that `DynamicImage::resize_exact` returns for
/// `img`, `width`, `height` and `filter`.
///
/// This is a relation and not a function of the arguments. The sampling
/// kernels are computed in floating point, the Lanczos kernel with the sine
/// of the standard library, whose precision is documented to vary with the
/// platform and the version. Which pixels come back is therefore left open;
/// that they came back from this call is not.
pub uninterp spec fn is_resize_of(
    out: DynamicImage,
    img: DynamicImage,
    width: u32,
    height: u32,
    filter: Filter,
) -> bool;

/// What `DynamicImage::width` returns for `img`.
pub uninterp spec fn image_width(img: DynamicImage) -> u32;

/// What `DynamicImage::height` returns for `img`.
pub uninterp spec fn image_height(img: DynamicImage) -> u32;

/// The number of bytes in an interleaved RGB buffer of the given size.
pub open spec fn rgb_len(width: u32, height: u32) -> int {
    3 * width * height
}

/// Whether an image `source_width` pixels wide can be resized to `target`
/// (width, height) within the address space.
///
/// Resizing first builds a buffer of `source_width` by `target.1` pixels and
/// then one of `target.0` by `target.1` pixels; a pixel takes at most sixteen
/// bytes (four channels of four bytes), and no buffer may exceed `isize::MAX`
/// bytes.
pub open spec fn resample_fits(source_width: u32, target: (u32, u32)) -> bool {
    &&& 16 * source_width * target.1 <= isize::MAX
    &&& 16 * target.0 * target.1 <= isize::MAX
}

/// `DynamicImage::width`: the width of the image in pixels.
#[verifier::external_body]
pub(crate) fn width(img: &DynamicImage) -> (w: u32)
    ensures
        w == image_width(*img),
{
    img.width()
}

/// `DynamicImage::resize_exact`: a new image of exactly `width` by `height`
/// pixels, sampled from `img` with `filter` without regard to the aspect
/// ratio. The result is a resize of `img` and has the size asked for; its
/// pixels are whatever the filter computes, which is no function of the
/// arguments (see `is_resize_of`). The buffers it allocates must fit the
/// address space.
#[verifier::external_body]
pub(crate) fn resize_exact(img: &DynamicImage, width: u32, height: u32, filter: Filter) -> (out:
    DynamicImage)
    requires
        resample_fits(image_width(*img), (width, height)),
    ensures
        is_resize_of(out, *img, width, height, filter),
        image_width(out) == width,
        image_height(out) == height,
{
    let filter = match filter {
        Filter::Nearest => image::imageops::FilterType::Nearest,
        Filter::Triangle => image::imageops::FilterType::Triangle,
        Filter::CatmullRom => image::imageops::FilterType::CatmullRom,
        Filter::Gaussian => image::imageops::FilterType::Gaussian,
        Filter::Lanczos3 => image::imageops::FilterType::Lanczos3,
    };
    img.resize_exact(width, height, filter)
}

/// `DynamicImage::to_rgb8`: a copy of `img` with every pixel converted to
/// 8-bit RGB, of the same width and height.
#[verifier::external_body]
pub(crate) fn to_rgb8(img: &DynamicImage) -> (out: Rgb8Image)
    requires
        rgb_len(image_width(*img), image_height(*img)) <= isize::MAX,
    ensures
        out == rgb_of(*img),
        rgb_width(out) == image_width(*img),
        rgb_height(out) == image_height(*img),
{
    Rgb8Image { image: img.to_rgb8() }
}

/// `ImageBuffer::width`: the width of the image in pixels.
#[verifier::external_body]
pub(crate) fn width_of(image: &Rgb8Image) -> (w: u32)
    ensures
        w == rgb_width(*image),
{
    image.image.width()
}

/// `ImageBuffer::height`: the height of the image in pixels.
#[verifier::external_body]
pub(crate) fn height_of(image: &Rgb8Image) -> (h: u32)
    ensures
        h == rgb_height(*image),
{
    image.image.height()
}

/// `ImageBuffer::get_pixel`: the red, green and blue byte of the pixel in
/// column `x` of row `y`, which must lie inside the image.
#[verifier::external_body]
pub(crate) fn pixel_at(image: &Rgb8Image, x: u32, y: u32) -> (pixel: [u8; 3])
    requires
        x < rgb_width(*image),
        y < rgb_height(*image),
    ensures
        pixel == rgb_at(*image, x, y),
{
    image.image.get_pixel(x, y).0
}

/// Where channel `channel` of the pixel in column `x` of row `y` stands in
/// an interleaved buffer of an image `width` pixels wide.
pub open spec fn offset(width: int, x: int, y: int, channel: int) -> int {
    3 * (y * width + x) + channel
}

/// Whether `bytes` holds the pixels of `image` row by row from the top, each
/// row from the left, each pixel as its red, green and blue byte.
pub open spec fn interleaves(bytes: Seq<u8>, image: Rgb8Image) -> bool {
    &&& bytes.len() == rgb_len(rgb_width(image), rgb_height(image))
    &&& forall|x: int, y: int, channel: int|
        0 <= x < rgb_width(image) && 0 <= y < rgb_height(image) && 0 <= channel < 3
            ==> #[trigger] bytes[offset(rgb_width(image) as int, x, y, channel)] == rgb_at(
            image,
            x as u32,
            y as u32,
        )[channel]
}

/// Whether `bytes` is what some resize of `decoded` to `target` (width,
/// height) with `filter` looks like as 8-bit RGB: a buffer of the target
/// size that interleaves the converted pixels of that resize.
pub open spec fn renders(
    bytes: Seq<u8>,
    decoded: DynamicImage,
    target: (u32, u32),
    filter: Filter,
) -> bool {
    &&& bytes.len() == rgb_len(target.0, target.1)
    &&& exists|resized: DynamicImage| #[trigger]
        is_resize_of(resized, decoded, target.0, target.1, filter) && image_width(resized)
            == target.0 && image_height(resized) == target.1 && interleaves(
            bytes,
            rgb_of(resized),
        )
}

/// Two buffers that interleave one image are equal.
pub proof fn lemma_interleaving_is_unique(first: Seq<u8>, second: Seq<u8>, image: Rgb8Image)
    requires
        interleaves(first, image),
        interleaves(second, image),
    ensures
        first == second,
{
    let w = rgb_width(image) as int;
    let h = rgb_height(image) as int;
    assert forall|i: int| 0 <= i < first.len() implies first[i] == second[i] by {
        assert(3 * w * h == 3 * (w * h)) by (nonlinear_arith);
        let pixel = i / 3;
        let channel = i % 3;
        assert(0 <= pixel < w * h);
        if w > 0 {
            let x = pixel % w;
            let y = pixel / w;
            vstd::arithmetic::div_mod::lemma_fundamental_div_mod(pixel, w);
            assert(pixel == w * y + x);
            assert(w * y == y * w) by (nonlinear_arith);
            assert(0 <= y);
            if y >= h {
                assert(y * w >= h * w) by (nonlinear_arith)
                    requires
                        y >= h,
                        w > 0,
                ;
                assert(h * w == w * h) by (nonlinear_arith);
            }
            assert(i == offset(w, x, y, channel));
            assert(first[offset(w, x, y, channel)] == rgb_at(image, x as u32, y as u32)[channel]);
            assert(second[offset(w, x, y, channel)] == rgb_at(image, x as u32, y as u32)[channel]);
        } else {
            assert(w * h == 0) by (nonlinear_arith)
                requires
                    w == 0,
            ;
        }
    }
    assert(first =~= second);
}

/// A pixel of an earlier row stands before every pixel of a later row.
proof fn lemma_rows_follow(width: int, x: int, y: int, rows: int)
    requires
        0 <= x < width,
        0 <= y < rows,
    ensures
        y * width + x < rows * width,
{
    assert((y + 1) * width <= rows * width) by (nonlinear_arith)
        requires
            y + 1 <= rows,
            0 <= width,
    ;
    assert((y + 1) * width == y * width + width) by (nonlinear_arith);
}

/// The pixels of `image` as interleaved bytes: row by row from the top, each
/// row from the left, each pixel as its red, green and blue byte.
pub fn rgb_bytes(image: &Rgb8Image) -> (bytes: Vec<u8>)
    ensures
        interleaves(bytes@, *image),
{
    let w = width_of(image);
    let h = height_of(image);
    let mut bytes: Vec<u8> = Vec::new();
    let mut y: u32 = 0;
    while y < h
        invariant
            w == rgb_width(*image),
            h == rgb_height(*image),
            y <= h,
            bytes@.len() == 3 * (y * w),
            forall|i: int, j: int, channel: int|
                0 <= i < w && 0 <= j < y && 0 <= channel < 3 ==> #[trigger] bytes@[offset(
                    w as int,
                    i,
                    j,
                    channel,
                )] == rgb_at(*image, i as u32, j as u32)[channel],
        decreases h - y,
    {
        let mut x: u32 = 0;
        while x < w
            invariant
                w == rgb_width(*image),
                h == rgb_height(*image),
                y < h,
                x <= w,
                bytes@.len() == 3 * (y * w + x),
                forall|i: int, j: int, channel: int|
                    0 <= i < w && 0 <= j < y && 0 <= channel < 3 ==> #[trigger] bytes@[offset(
                        w as int,
                        i,
                        j,
                        channel,
                    )] == rgb_at(*image, i as u32, j as u32)[channel],
                forall|i: int, channel: int|
                    0 <= i < x && 0 <= channel < 3 ==> #[trigger] bytes@[offset(
                        w as int,
                        i,
                        y as int,
                        channel,
                    )] == rgb_at(*image, i as u32, y)[channel],
            decreases w - x,
        {
            let pixel = pixel_at(image, x, y);
            let ghost before = bytes@;
            bytes.push(pixel[0]);
            bytes.push(pixel[1]);
            bytes.push(pixel[2]);
            proof {
                assert forall|i: int, j: int, channel: int|
                    0 <= i < w && 0 <= j < y && 0 <= channel < 3 implies #[trigger] bytes@[offset(
                    w as int,
                    i,
                    j,
                    channel,
                )] == rgb_at(*image, i as u32, j as u32)[channel] by {
                    lemma_rows_follow(w as int, i, j, y as int);
                    assert(bytes@[offset(w as int, i, j, channel)] == before[offset(
                        w as int,
                        i,
                        j,
                        channel,
                    )]);
                }
                assert forall|i: int, channel: int|
                    0 <= i < x + 1 && 0 <= channel < 3 implies #[trigger] bytes@[offset(
                    w as int,
                    i,
                    y as int,
                    channel,
                )] == rgb_at(*image, i as u32, y)[channel] by {
                    if i < x {
                        assert(bytes@[offset(w as int, i, y as int, channel)] == before[offset(
                            w as int,
                            i,
                            y as int,
                            channel,
                        )]);
                    }
                }
            }
            x = x + 1;
        }
        proof {
            assert(3 * (y * w + w) == 3 * ((y + 1) * w)) by (nonlinear_arith);
        }
        y = y + 1;
    }
    proof {
        assert(3 * (h * w) == 3 * w * h) by (nonlinear_arith);
    }
    bytes
}

} // verus!
