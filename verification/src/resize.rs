//! The boundary to the external resampling routine.
//!
//! The pipeline only decides the target dimensions and the kernel; the
//! interpolation itself is delegated to the `image` crate. Its result is a
//! pure function of the source raster, the dimensions and the kernel, so
//! it is given a name here and the rest of the pipeline is specified over
//! that name.

use crate::params::Filter;
use vstd::prelude::*;

verus! {

/// A code telling the resampling kernels apart in specifications.
pub open spec fn filter_code(f: Filter) -> int {
    match f {
        Filter::Nearest => 0,
        Filter::Triangle => 1,
        Filter::CatmullRom => 2,
        Filter::Gaussian => 3,
        Filter::Lanczos3 => 4,
    }
}

/// The raster that resampling a `width` by `height` grayscale raster to
/// `new_width` by `new_height` with the given kernel produces.
pub uninterp spec fn resized_data(
    data: Seq<u8>,
    width: int,
    height: int,
    new_width: int,
    new_height: int,
    filter: int,
) -> Seq<u8>;

/// Relies on `image::imageops::resize`: resampling a grayscale image to the
/// given dimensions returns an image of exactly those dimensions, and the
/// result depends on the source samples, the dimensions and the kernel
/// alone. `image::GrayImage::from_raw` and `ImageBuffer::into_raw` convert
/// between the raw sample vector and the crate's image type at the
/// boundary; `from_raw` returns `Some` because the sample count matches
/// the dimensions.
#[verifier::external_body]
pub(crate) fn resize_raster(
    data: &Vec<u8>,
    width: u32,
    height: u32,
    new_width: u32,
    new_height: u32,
    filter: Filter,
) -> (r: Vec<u8>)
    requires
        width >= 1,
        height >= 1,
        new_width >= 1,
        new_height >= 1,
        data@.len() == (width as int) * (height as int),
    ensures
        r@.len() == (new_width as int) * (new_height as int),
        r@ == resized_data(
            data@,
            width as int,
            height as int,
            new_width as int,
            new_height as int,
            filter_code(filter),
        ),
{
    let kind = match filter {
        Filter::Nearest => image::imageops::FilterType::Nearest,
        Filter::Triangle => image::imageops::FilterType::Triangle,
        Filter::CatmullRom => image::imageops::FilterType::CatmullRom,
        Filter::Gaussian => image::imageops::FilterType::Gaussian,
        Filter::Lanczos3 => image::imageops::FilterType::Lanczos3,
    };
    let img = image::GrayImage::from_raw(width, height, data.clone()).unwrap();
    image::imageops::resize(&img, new_width, new_height, kind).into_raw()
}

} // verus!
