//! Building the sample grid from a decoded image of the `image` crate.
//!
//! The image is opaque here. What the crate's functions say of it is named
//! by three uninterpreted functions, and the wrappers below are believed to
//! return exactly that; everything decided from their results is verified.

use vstd::prelude::*;
use image::{ColorType, DynamicImage, GenericImageView};
use crate::heightmap::{Heightmap, HeightmapError};
use crate::planner::valid_dimensions;

verus! {

/// A decoded image of the `image` crate, carried through as it is.
#[verifier::external_type_specification]
#[verifier::external_body]
pub struct ExDynamicImage(image::DynamicImage);

/// The colour models a decoded image can have.
#[derive(Clone, Copy, Debug, PartialEq, Eq)]
pub enum ColorModel {
    L8,
    La8,
    Rgb8,
    Rgba8,
    L16,
    La16,
    Rgb16,
    Rgba16,
    Rgb32F,
    Rgba32F,
    /// A model that a later version of the `image` crate may add.
    Other,
}

/// The colour model of a decoded image: what `DynamicImage::color` returns.
pub uninterp spec fn image_color(img: DynamicImage) -> ColorModel;

/// Width and height of a decoded image: what `GenericImageView::dimensions` returns.
pub uninterp spec fn image_dimensions(img: DynamicImage) -> (u32, u32);

/// The 8-bit luma samples of a decoded image, row by row: the pixels of what
/// `DynamicImage::to_luma8` returns.
pub uninterp spec fn image_luma(img: DynamicImage) -> Seq<u8>;

/// Calls `DynamicImage::color` and renames the variant it returns. Believed:
/// the result is the image's colour model.
#[verifier::external_body]
fn color_of(img: &DynamicImage) -> (model: ColorModel)
    ensures
        model == image_color(*img),
{
    match img.color() {
        ColorType::L8 => ColorModel::L8,
        ColorType::La8 => ColorModel::La8,
        ColorType::Rgb8 => ColorModel::Rgb8,
        ColorType::Rgba8 => ColorModel::Rgba8,
        ColorType::L16 => ColorModel::L16,
        ColorType::La16 => ColorModel::La16,
        ColorType::Rgb16 => ColorModel::Rgb16,
        ColorType::Rgba16 => ColorModel::Rgba16,
        ColorType::Rgb32F => ColorModel::Rgb32F,
        ColorType::Rgba32F => ColorModel::Rgba32F,
        _ => ColorModel::Other,
    }
}

/// Calls `GenericImageView::dimensions`. Believed: the result is the image's
/// width and height.
#[verifier::external_body]
fn dimensions_of(img: &DynamicImage) -> (size: (u32, u32))
    ensures
        size == image_dimensions(*img),
{
    img.dimensions()
}

/// Calls `DynamicImage::to_luma8` and hands out the one channel of each pixel
/// in the order `ImageBuffer::pixels` walks them, row by row. Believed: the
/// result is the image's luma samples, one for each grid position.
#[verifier::external_body]
fn luma_of(img: &DynamicImage) -> (samples: Vec<u8>)
    ensures
        samples@ == image_luma(*img),
        samples@.len() == image_dimensions(*img).0 * image_dimensions(*img).1,
{
    img.to_luma8().pixels().map(|pixel| pixel.0[0]).collect()
}

/// Whether a colour model is single-channel luma, at 8 or at 16 bits.
pub open spec fn is_luma(model: ColorModel) -> bool {
    model == ColorModel::L8 || model == ColorModel::L16
}

/// Whether an image of this colour model can serve as a height map.
pub fn accepts_color(model: ColorModel) -> (accepted: bool)
    ensures
        accepted == is_luma(model),
{
    match model {
        ColorModel::L8 => true,
        ColorModel::L16 => true,
        _ => false,
    }
}

/// Builds the sample grid of a decoded image. The image must be a luma image
/// and at least two samples wide and high; a 16-bit image is read at 8 bits.
pub fn heightmap_from_image(img: &DynamicImage) -> (built: Result<Heightmap, HeightmapError>)
    ensures
        match built {
            Ok(map) => {
                &&& is_luma(image_color(*img))
                &&& valid_dimensions(
                    image_dimensions(*img).0 as int,
                    image_dimensions(*img).1 as int,
                )
                &&& map.wf()
                &&& map.spec_width() == image_dimensions(*img).0
                &&& map.spec_height() == image_dimensions(*img).1
                &&& map@ == image_luma(*img)
            },
            Err(HeightmapError::NotLuma) => !is_luma(image_color(*img)),
            Err(HeightmapError::InvalidDimensions) => is_luma(image_color(*img))
                && !valid_dimensions(
                image_dimensions(*img).0 as int,
                image_dimensions(*img).1 as int,
            ),
            Err(HeightmapError::SampleCountMismatch) => false,
        },
{
    if !accepts_color(color_of(img)) {
        return Err(HeightmapError::NotLuma);
    }
    let (width, height) = dimensions_of(img);
    Heightmap::from_samples(width, height, luma_of(img))
}

} // verus!
