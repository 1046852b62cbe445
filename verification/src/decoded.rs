//! Decoded images, as the `image` crate hands them over.
//!
//! Verus does not look inside a `DynamicImage`. What this crate needs of one,
//! its dimensions, whether its samples are floating-point numbers, and the
//! RGBA value of each pixel, is named here and read through the four items
//! below.
//!
//! Pixels are read from images with integer samples only. The `image` crate
//! converts a floating-point sample to eight bits by clamping, scaling and
//! rounding, and stops the program on a sample that is not a number; no test
//! that this crate can make beforehand rules such a sample out.

use image::DynamicImage;
use image::GenericImageView;
use image::Pixel;
use vstd::prelude::*;

verus! {

/// `image::DynamicImage`, a decoded image in any of the crate's pixel
/// layouts. It is carried around as it is; nothing is claimed of its inside.
#[verifier::external_type_specification]
#[verifier::external_body]
pub struct ExDynamicImage(DynamicImage);

/// Width of a decoded image, in pixels.
pub uninterp spec fn image_width(image: DynamicImage) -> u32;

/// Height of a decoded image, in pixels.
pub uninterp spec fn image_height(image: DynamicImage) -> u32;

/// Whether the samples of a decoded image are floating-point numbers.
pub uninterp spec fn image_is_float(image: DynamicImage) -> bool;

/// The pixels of a decoded image by column and row, each as red, green, blue
/// and alpha in eight bits.
pub uninterp spec fn image_rgba(image: DynamicImage) -> Map<(int, int), (u8, u8, u8, u8)>;

/// `DynamicImage::width` returns the width that `image_width` names.
pub assume_specification[ DynamicImage::width ](image: &DynamicImage) -> (width: u32)
    ensures
        width == image_width(*image),
;

/// `DynamicImage::height` returns the height that `image_height` names.
pub assume_specification[ DynamicImage::height ](image: &DynamicImage) -> (height: u32)
    ensures
        height == image_height(*image),
;

/// Tells the variants of `DynamicImage` apart: `ImageRgb32F` and
/// `ImageRgba32F` hold floating-point samples, which is what `image_is_float`
/// names; every other variant holds integers.
#[verifier::external_body]
pub(crate) fn is_float(image: &DynamicImage) -> (float: bool)
    ensures
        float == image_is_float(*image),
{
    match image {
        DynamicImage::ImageRgb32F(_) => true,
        DynamicImage::ImageRgba32F(_) => true,
        _ => false,
    }
}

/// `GenericImageView::get_pixel` on a `DynamicImage`, followed by
/// `Pixel::to_rgba` and `Pixel::channels`: the four channels of the pixel in
/// column `x` of row `y`, which `image_rgba` names. `get_pixel` panics outside
/// the image, so the position must lie inside it; on a floating-point image it
/// panics on a sample that is not a number, so the image must hold integers.
#[verifier::external_body]
pub(crate) fn rgba_at(image: &DynamicImage, x: u32, y: u32) -> (rgba: (u8, u8, u8, u8))
    requires
        !image_is_float(*image),
        x < image_width(*image),
        y < image_height(*image),
    ensures
        rgba == image_rgba(*image)[(x as int, y as int)],
{
    let pixel = image.get_pixel(x, y).to_rgba();
    let channels = pixel.channels();
    (channels[0], channels[1], channels[2], channels[3])
}

} // verus!
