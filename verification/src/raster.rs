//! Raster images, as the `image` crate holds them.
//!
//! An image is carried through as it was loaded, whatever its colour type.
//! What this library reads of one are its dimensions and its 8-bit luminance
//! samples.

use crate::variants::Transform;
use image::DynamicImage;
use vstd::prelude::*;

verus! {

/// A raster image of the `image` crate, of any colour type.
#[verifier::external_type_specification]
#[verifier::external_body]
pub struct ExDynamicImage(image::DynamicImage);

/// The failure of the `image` crate to read an image.
#[verifier::external_type_specification]
#[verifier::external_body]
pub struct ExImageError(image::ImageError);

/// The width and the height of an image, in pixels.
pub uninterp spec fn dimensions_of(img: DynamicImage) -> (u32, u32);

/// The 8-bit luminance samples of an image, row by row, with the width and
/// the height of the raster that they fill.
pub uninterp spec fn luma_raster(img: DynamicImage) -> (Seq<u8>, u32, u32);

/// The image that `image`'s `DynamicImage::resize` makes of `img` within
/// `width` by `height` pixels under the triangle filter.
pub uninterp spec fn resized(img: DynamicImage, width: u32, height: u32) -> DynamicImage;

/// Whether the samples of an image are fractions rather than whole numbers.
pub uninterp spec fn fractional_samples(img: DynamicImage) -> bool;

/// The image that `image`'s `DynamicImage::brighten` makes of `img` with the
/// offset `value`.
pub uninterp spec fn brightened(img: DynamicImage, value: i32) -> DynamicImage;

/// The longer of two sides.
pub open spec fn longest_side(dimensions: (u32, u32)) -> u32 {
    if dimensions.0 >= dimensions.1 {
        dimensions.0
    } else {
        dimensions.1
    }
}

/// `image::load_from_memory`: reads an image from bytes in one of the
/// formats that the `image` crate was built with, guessing the format. Which
/// bytes are read as which image depends on those formats and on the decoding
/// hooks that the process has registered, so nothing is claimed of it.
pub assume_specification[ image::load_from_memory ](buffer: &[u8]) -> (loaded: Result<
    DynamicImage,
    image::ImageError,
>)
;

/// `DynamicImage::clone`: the copy is the image.
pub assume_specification[ <DynamicImage as Clone>::clone ](img: &DynamicImage) -> (copy:
    DynamicImage)
    ensures
        copy == *img,
;

/// `GenericImageView::dimensions` of a `DynamicImage`: the width and the
/// height of the image, which is what [`dimensions_of`] names.
#[verifier::external_body]
pub(crate) fn dimensions(img: &DynamicImage) -> (size: (u32, u32))
    ensures
        size == dimensions_of(*img),
{
    image::GenericImageView::dimensions(img)
}

/// `DynamicImage::to_luma8`, with `dimensions` and `into_raw` of what it
/// gives: the image as 8-bit luminance samples, row by row, with the width
/// and the height of the raster. The samples are a function of the image,
/// which [`luma_raster`] names; nothing is claimed of their values. The
/// raster has the width and the height of the image.
#[verifier::external_body]
pub(crate) fn luma8(img: &DynamicImage) -> (raster: (Vec<u8>, u32, u32))
    ensures
        (raster.0@, raster.1, raster.2) == luma_raster(*img),
        (raster.1, raster.2) == dimensions_of(*img),
{
    let luma = img.to_luma8();
    let (width, height) = luma.dimensions();
    (luma.into_raw(), width, height)
}

/// `DynamicImage::resize` with `FilterType::Triangle`: the image scaled,
/// keeping its aspect ratio, to the largest size that fits in `width` by
/// `height`. One of the bounds must be shorter than the image's side, so
/// that the image is shrunk and nothing larger than it is allocated. The
/// filter weighs the samples by plain arithmetic, so the result is a function
/// of the image and the two bounds, which [`resized`] names.
#[verifier::external_body]
pub(crate) fn resize_triangle(img: &DynamicImage, width: u32, height: u32) -> (scaled:
    DynamicImage)
    requires
        width < dimensions_of(*img).0 || height < dimensions_of(*img).1,
    ensures
        scaled == resized(*img, width, height),
{
    img.resize(width, height, image::imageops::FilterType::Triangle)
}

/// The largest offset that is handed to `DynamicImage::brighten`: added to a
/// sample of 16 bits it still fits in 32 bits.
pub const MAX_OFFSET: i32 = i32::MAX - 65_535;

/// `DynamicImage::as_flat_samples_f32`: whether the image gives a view of
/// 32-bit floating point samples, as the images of fractional samples do and
/// no others, which is what [`fractional_samples`] names.
#[verifier::external_body]
pub(crate) fn has_fractional_samples(img: &DynamicImage) -> (fractional: bool)
    ensures
        fractional == fractional_samples(*img),
{
    img.as_flat_samples_f32().is_some()
}

/// `DynamicImage::brighten`: every colour channel of every pixel moved by
/// `value` and held within the range of the samples. Each sample is turned
/// into a whole number of 32 bits and added to `value`: the samples must be
/// whole numbers, of 16 bits at most, and `value` must leave room for them.
/// The result is a function of the image and the offset, which
/// [`brightened`] names.
#[verifier::external_body]
pub(crate) fn brighten(img: &DynamicImage, value: i32) -> (lit: DynamicImage)
    requires
        !fractional_samples(*img),
        value <= MAX_OFFSET,
    ensures
        lit == brightened(*img, value),
{
    img.brighten(value)
}

/// `DynamicImage::huerotate`: the hue of every pixel rotated by `degrees`,
/// in an image of the same width and height. The rotation is computed with
/// the sine and the cosine of the angle, whose precision the standard
/// library leaves open, so nothing is claimed of the pixels.
#[verifier::external_body]
pub(crate) fn hue_rotate(img: &DynamicImage, degrees: i32) -> (turned: DynamicImage)
    ensures
        dimensions_of(turned) == dimensions_of(*img),
{
    img.huerotate(degrees)
}

/// What [`resize_to`] makes of an image: the image itself where its longest
/// side is at most `size`, and else the image resized to fit a square of
/// side `size`.
pub open spec fn downscaled(img: DynamicImage, size: u32) -> DynamicImage {
    if longest_side(dimensions_of(img)) <= size {
        img
    } else {
        resized(img, size, size)
    }
}

/// Shrinks an image so that its longest side is `size` pixels. An image
/// whose longest side is `size` or shorter is returned unchanged: nothing is
/// ever enlarged.
pub fn resize_to(img: &DynamicImage, size: u32) -> (scaled: DynamicImage)
    ensures
        scaled == downscaled(*img, size),
{
    let (width, height) = dimensions(img);
    let longest = if width >= height {
        width
    } else {
        height
    };
    if longest <= size {
        return img.clone();
    }
    resize_triangle(img, size, size)
}

/// The offset that a brightness change of `offset` is made with: the offset,
/// and no more than [`MAX_OFFSET`]. Far below that every sample is already
/// as bright as it can be.
pub open spec fn capped_offset(offset: i32) -> i32 {
    if offset > MAX_OFFSET {
        MAX_OFFSET
    } else {
        offset
    }
}

/// Whether `made` is what [`apply`] owes for `transform` on `img`: the
/// variant where it is made in whole numbers, and nothing where fractions
/// come in. Of a hue rotation only the size of the variant is fixed: its
/// pixels are computed with sine and cosine, which have no fixed result.
pub open spec fn is_applied(
    img: DynamicImage,
    transform: Transform,
    made: Option<DynamicImage>,
) -> bool {
    match transform {
        Transform::Downscale { longest_side } => made == Some(downscaled(img, longest_side)),
        Transform::Luminance { offset } => if fractional_samples(img) {
            made is None
        } else {
            made == Some(brightened(img, capped_offset(offset)))
        },
        Transform::Hue { degrees } => made matches Some(turned) && dimensions_of(turned)
            == dimensions_of(img),
        Transform::Blur { sigma_milli } => made is None,
        Transform::Contrast { amount_milli } => made is None,
        Transform::Saturation { percent_milli } => made is None,
    }
}

/// Makes the variant of an image under a perturbation whose magnitude is a
/// whole number: a downscale, a brightness change or a hue rotation.
///
/// Blur, contrast and saturation changes take magnitudes that are fractions,
/// and the brightness of an image of fractional samples is changed in
/// fractions. This library does not compute with fractions: for these
/// nothing is made, and the caller makes the variant.
pub fn apply(img: &DynamicImage, transform: Transform) -> (made: Option<DynamicImage>)
    ensures
        is_applied(*img, transform, made),
{
    match transform {
        Transform::Downscale { longest_side } => Some(resize_to(img, longest_side)),
        Transform::Luminance { offset } => {
            if has_fractional_samples(img) {
                return None;
            }
            let value = if offset > MAX_OFFSET {
                MAX_OFFSET
            } else {
                offset
            };
            Some(brighten(img, value))
        },
        Transform::Hue { degrees } => Some(hue_rotate(img, degrees)),
        Transform::Blur { sigma_milli: _ } => None,
        Transform::Contrast { amount_milli: _ } => None,
        Transform::Saturation { percent_milli: _ } => None,
    }
}

/// The variants that are made in whole numbers are fixed by the image and
/// the perturbation: made twice, a variant is the same image. Of a hue
/// rotation, which is computed with sine and cosine, this is not stated.
pub proof fn lemma_variant_is_fixed(
    img: DynamicImage,
    transform: Transform,
    first: Option<DynamicImage>,
    second: Option<DynamicImage>,
)
    requires
        is_applied(img, transform, first),
        is_applied(img, transform, second),
        !(transform is Hue),
    ensures
        first == second,
{
}

} // verus!
