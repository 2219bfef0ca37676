//! The conversion pipeline: resize, contrast stretch, gamma correction.
//!
//! Each stage is independently skippable when it provably cannot change
//! the output: resizing is skipped when the solved width equals the
//! current one or enlarging is not permitted, the stretch when its range
//! is degenerate or already the full range, and the gamma lookup when the
//! exponent is within a thousandth of one. The pipeline is a pure function
//! of the buffer and the parameters.

use crate::buffer::{GrayBuffer, GrayView};
use crate::contrast::{lemma_stretch_full_range_identity, percentile, spec_percentile,
    spec_stretch, stretch_contrast};
use crate::dimensions::{resize_dimensions, spec_resize_dimensions};
use crate::gamma::{apply_lut, spec_apply_lut};
use crate::params::ConvertParams;
use crate::resize::{filter_code, resize_raster, resized_data};
use vstd::prelude::*;

verus! {

/// Why a conversion was rejected.
#[derive(Clone, Copy, Debug, PartialEq, Eq, Structural)]
pub enum ConvertError {
    /// The source buffer has a zero width or height.
    EmptyImage,
}

/// Whether the gamma stage is a no-op: an exponent within one thousandth
/// of one is the identity curve up to the table's rounding.
pub open spec fn gamma_is_identity(gamma_millis: u32) -> bool {
    999 <= gamma_millis <= 1001
}

/// What one conversion produces: the solved dimensions (resampling only
/// when they shrink the width, or grow it with upscaling permitted), then
/// the contrast stretch between the two percentile cutoffs, then the gamma
/// lookup unless the exponent is the identity.
pub open spec fn spec_convert(img: GrayView, p: ConvertParams) -> GrayView
    recommends
        img.width >= 1,
        img.height >= 1,
        p.wf(),
{
    let dims = spec_resize_dimensions(img.width, img.height, p.width, p.height);
    let resized = if dims.0 == img.width || (dims.0 > img.width && !p.upscale) {
        img
    } else {
        GrayView {
            width: dims.0,
            height: dims.1,
            data: resized_data(
                img.data,
                img.width as int,
                img.height as int,
                dims.0 as int,
                dims.1 as int,
                filter_code(p.filter),
            ),
        }
    };
    let lower = spec_percentile(resized.data, p.cutoff);
    let upper = spec_percentile(resized.data, (100 - p.cutoff) as u8);
    let stretched = GrayView {
        width: resized.width,
        height: resized.height,
        data: spec_stretch(resized.data, lower, upper),
    };
    if gamma_is_identity(p.gamma_millis) {
        stretched
    } else {
        GrayView {
            width: stretched.width,
            height: stretched.height,
            data: spec_apply_lut(stretched.data, p.gamma_lut@),
        }
    }
}

/// Everything [`convert`] promises of its result: a degenerate source is
/// rejected, any other source is converted to exactly
/// [`spec_convert`] of the inputs.
pub open spec fn convert_post(
    img: GrayView,
    p: ConvertParams,
    r: Result<GrayBuffer, ConvertError>,
) -> bool {
    if img.width >= 1 && img.height >= 1 {
        &&& r is Ok
        &&& (r matches Ok(out) ==> out@ == spec_convert(img, p) && out@.wf())
    } else {
        r == Err::<GrayBuffer, ConvertError>(ConvertError::EmptyImage)
    }
}

/// Converts an image according to the given params: solves the output
/// dimensions, resamples when permitted, stretches the contrast between
/// the two percentile cutoffs, and applies the gamma lookup table.
pub fn convert(image: GrayBuffer, params: &ConvertParams) -> (r: Result<GrayBuffer, ConvertError>)
    requires
        image.wf(),
        params.wf(),
    ensures
        convert_post(image@, *params, r),
{
    if image.width == 0 || image.height == 0 {
        return Err(ConvertError::EmptyImage);
    }
    let (nw, nh) = resize_dimensions(image.width, image.height, params.width, params.height);
    let mut w = image.width;
    let mut h = image.height;
    let mut data = image.data;

    // If the width didn't change, the height didn't change either; if it
    // would grow and upscaling is off, the source is kept as it is.
    if nw == w || (nw > w && !params.upscale) {
    } else {
        data = resize_raster(&data, w, h, nw, nh, params.filter);
        w = nw;
        h = nh;
    }

    let lower = percentile(&data, params.cutoff);
    let upper = percentile(&data, 100 - params.cutoff);
    // A degenerate range changes nothing by definition, and the full
    // range provably changes nothing either, so both skips are sound.
    if upper > lower && !(lower == 0 && upper == 255) {
        stretch_contrast(&mut data, lower, upper);
    } else {
        proof {
            if upper > lower {
                lemma_stretch_full_range_identity(data@);
            }
        }
    }

    // Within a thousandth of one the gamma curve is the identity.
    if !(params.gamma_millis >= 999 && params.gamma_millis <= 1001) {
        apply_lut(&mut data, &params.gamma_lut);
    }

    Ok(GrayBuffer { width: w, height: h, data })
}

/// Upscale gating: when the solved width exceeds the source width, the
/// output keeps the source dimensions with upscaling off and takes the
/// solved dimensions with upscaling on.
pub proof fn lemma_upscale_gating(img: GrayView, p: ConvertParams)
    requires
        spec_resize_dimensions(img.width, img.height, p.width, p.height).0 > img.width,
    ensures
        !p.upscale ==> spec_convert(img, p).width == img.width && spec_convert(img, p).height
            == img.height,
        p.upscale ==> spec_convert(img, p).width == spec_resize_dimensions(
            img.width,
            img.height,
            p.width,
            p.height,
        ).0 && spec_convert(img, p).height == spec_resize_dimensions(
            img.width,
            img.height,
            p.width,
            p.height,
        ).1,
{
}

/// Determinism: the contract of [`convert`] admits exactly one result for
/// a given source and parameter set, so two calls on identical inputs
/// yield identical output.
pub proof fn lemma_convert_deterministic(
    img: GrayView,
    p: ConvertParams,
    r1: Result<GrayBuffer, ConvertError>,
    r2: Result<GrayBuffer, ConvertError>,
)
    requires
        convert_post(img, p, r1),
        convert_post(img, p, r2),
    ensures
        r1 is Ok <==> r2 is Ok,
        r1 is Ok ==> r1->Ok_0@ == r2->Ok_0@,
        r1 is Err ==> r1 == r2,
{
}

} // verus!
