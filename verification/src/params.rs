//! Conversion parameters and their builder.
//!
//! A parameter set is assembled once through [`ConvertParamsBuilder`],
//! validated at build time, and then passed by reference into any number of
//! pipeline invocations; it is never mutated afterwards. The gamma exponent
//! is carried in thousandths, and the derived gamma lookup table is taken
//! as input at build time: deriving the table is a floating-point power
//! computation that cannot live in this verified core, so a front end
//! computes the 256 entries and hands them in.

use vstd::prelude::*;

verus! {

/// The resampling kernel used when the pipeline resizes a buffer. The
/// kernels' interpolation math is an external collaborator's concern; the
/// pipeline only selects one of them.
#[derive(Clone, Copy, Debug, PartialEq, Eq, Structural)]
pub enum Filter {
    Nearest,
    Triangle,
    CatmullRom,
    Gaussian,
    Lanczos3,
}

/// Why a parameter set failed validation at build time.
#[derive(Clone, Copy, Debug, PartialEq, Eq, Structural)]
pub enum BuildError {
    /// The gamma exponent must be positive.
    NonPositiveGamma,
    /// A cutoff of fifty percent or more per tail would invert or
    /// degenerate the stretch range.
    CutoffTooLarge,
}

/// Defines parameters for the [`crate::convert()`] function.
#[derive(Clone, Debug)]
pub struct ConvertParams {
    /// Maximum output width; zero means unbounded.
    pub width: u32,
    /// Maximum output height; zero means unbounded.
    pub height: u32,
    /// Whether a source smaller than the bounds may be enlarged.
    pub upscale: bool,
    /// Percent of the darkest and brightest pixels ignored on each tail
    /// when stretching the contrast.
    pub cutoff: u8,
    /// Resampling kernel used when resizing.
    pub filter: Filter,
    /// Gamma exponent in thousandths; values below one thousand darken,
    /// values above brighten.
    pub gamma_millis: u32,
    /// The 256-entry lookup table derived from the gamma exponent.
    pub gamma_lut: Vec<u8>,
}

impl ConvertParams {
    /// A parameter set as the builder produces it: validated, with a
    /// full-size lookup table.
    pub open spec fn wf(&self) -> bool {
        &&& self.gamma_millis >= 1
        &&& self.cutoff < 50
        &&& self.gamma_lut@.len() == 256
    }

    /// Returns a new [`ConvertParamsBuilder`] with default settings.
    pub fn builder() -> (r: ConvertParamsBuilder)
        ensures
            r == ConvertParamsBuilder::spec_default(),
    {
        ConvertParamsBuilder::default()
    }
}

/// Builds [`ConvertParams`]: a mutable staging object whose setters can be
/// chained, finished by [`ConvertParamsBuilder::build`].
#[derive(Clone, Copy, Debug)]
pub struct ConvertParamsBuilder {
    pub width: u32,
    pub height: u32,
    pub upscale: bool,
    pub cutoff: u8,
    pub filter: Filter,
    pub gamma_millis: u32,
}

impl ConvertParamsBuilder {
    /// The default settings: a 1920 by 1920 bounding box, no upscaling,
    /// one percent cutoff per tail, Catmull-Rom resampling, and a gamma
    /// exponent of three quarters.
    pub open spec fn spec_default() -> ConvertParamsBuilder {
        ConvertParamsBuilder {
            width: 1920,
            height: 1920,
            upscale: false,
            cutoff: 1,
            filter: Filter::CatmullRom,
            gamma_millis: 750,
        }
    }

    /// Sets maximum width for the output image. Aspect ratio will be
    /// preserved.
    pub fn width(self, width: u32) -> (r: Self)
        ensures
            r == (ConvertParamsBuilder { width, ..self }),
    {
        ConvertParamsBuilder { width, ..self }
    }

    /// Sets maximum height for the output image. Aspect ratio will be
    /// preserved.
    pub fn height(self, height: u32) -> (r: Self)
        ensures
            r == (ConvertParamsBuilder { height, ..self }),
    {
        ConvertParamsBuilder { height, ..self }
    }

    /// Sets whether an image smaller than the desired width and height
    /// should be upscaled.
    pub fn upscale(self, upscale: bool) -> (r: Self)
        ensures
            r == (ConvertParamsBuilder { upscale, ..self }),
    {
        ConvertParamsBuilder { upscale, ..self }
    }

    /// Sets the percent of the brightest and darkest pixels to ignore on
    /// each tail when equalizing the histogram.
    pub fn cutoff(self, cutoff: u8) -> (r: Self)
        ensures
            r == (ConvertParamsBuilder { cutoff, ..self }),
    {
        ConvertParamsBuilder { cutoff, ..self }
    }

    /// Sets the resampling filter used when resizing the image.
    pub fn filter(self, filter: Filter) -> (r: Self)
        ensures
            r == (ConvertParamsBuilder { filter, ..self }),
    {
        ConvertParamsBuilder { filter, ..self }
    }

    /// Sets the gamma exponent, in thousandths. Values below one thousand
    /// darken the image, values above brighten it.
    pub fn gamma(self, gamma_millis: u32) -> (r: Self)
        ensures
            r == (ConvertParamsBuilder { gamma_millis, ..self }),
    {
        ConvertParamsBuilder { gamma_millis, ..self }
    }

    /// Builds and returns a [`ConvertParams`] instance, validating the
    /// settings: the gamma exponent must be positive and the cutoff must
    /// stay below fifty percent per tail, so that the percentile markers
    /// cannot cross. `gamma_lut` is the 256-entry lookup table derived
    /// from the gamma exponent by the caller.
    pub fn build(&self, gamma_lut: Vec<u8>) -> (r: Result<ConvertParams, BuildError>)
        requires
            gamma_lut@.len() == 256,
        ensures
            self.gamma_millis == 0 ==> r == Err::<ConvertParams, BuildError>(
                BuildError::NonPositiveGamma,
            ),
            self.gamma_millis >= 1 && self.cutoff >= 50 ==> r == Err::<ConvertParams, BuildError>(
                BuildError::CutoffTooLarge,
            ),
            self.gamma_millis >= 1 && self.cutoff < 50 ==> r is Ok,
            r matches Ok(p) ==> p.wf() && p.width == self.width && p.height == self.height
                && p.upscale == self.upscale && p.cutoff == self.cutoff && p.filter == self.filter
                && p.gamma_millis == self.gamma_millis && p.gamma_lut@ == gamma_lut@,
    {
        if self.gamma_millis == 0 {
            return Err(BuildError::NonPositiveGamma);
        }
        if self.cutoff >= 50 {
            return Err(BuildError::CutoffTooLarge);
        }
        Ok(
            ConvertParams {
                width: self.width,
                height: self.height,
                upscale: self.upscale,
                cutoff: self.cutoff,
                filter: self.filter,
                gamma_millis: self.gamma_millis,
                gamma_lut,
            },
        )
    }
}

impl Default for ConvertParamsBuilder {
    /// Returns the settings of [`ConvertParamsBuilder::spec_default`].
    fn default() -> (r: Self)
        ensures
            r == ConvertParamsBuilder::spec_default(),
    {
        ConvertParamsBuilder {
            width: 1920,
            height: 1920,
            upscale: false,
            cutoff: 1,
            filter: Filter::CatmullRom,
            gamma_millis: 750,
        }
    }
}

} // verus!
