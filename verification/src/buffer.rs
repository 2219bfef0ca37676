//! The in-memory grayscale raster the pipeline works on.
//!
//! A buffer is a row-major grid of 8-bit intensity samples with explicit
//! width and height. Decoding from and encoding to file formats is a
//! caller's concern; the pipeline only ever sees this representation.

use vstd::prelude::*;

verus! {

/// A single-channel, 8-bit, row-major pixel buffer.
#[derive(Clone, Debug, PartialEq)]
pub struct GrayBuffer {
    pub width: u32,
    pub height: u32,
    pub data: Vec<u8>,
}

/// The mathematical value of a [`GrayBuffer`]: its dimensions and the
/// sequence of its samples.
pub struct GrayView {
    pub width: u32,
    pub height: u32,
    pub data: Seq<u8>,
}

impl View for GrayBuffer {
    type V = GrayView;

    open spec fn view(&self) -> GrayView {
        GrayView { width: self.width, height: self.height, data: self.data@ }
    }
}

impl GrayView {
    /// The sample sequence holds exactly one entry per pixel.
    pub open spec fn wf(&self) -> bool {
        self.data.len() == (self.width as int) * (self.height as int)
    }
}

impl GrayBuffer {
    /// The sample vector holds exactly one entry per pixel.
    pub open spec fn wf(&self) -> bool {
        self@.wf()
    }

    /// Wraps raw samples as a buffer of the given dimensions; returns
    /// `None` when the sample count does not match the dimensions.
    pub fn new(width: u32, height: u32, data: Vec<u8>) -> (r: Option<GrayBuffer>)
        ensures
            match r {
                Some(b) => b.width == width && b.height == height && b.data@ == data@ && b.wf(),
                None => data@.len() != (width as int) * (height as int),
            },
    {
        proof {
            assert((width as int) * (height as int) <= u64::MAX && (width as int) * (height as int)
                >= 0) by (nonlinear_arith)
                requires
                    width <= u32::MAX,
                    height <= u32::MAX,
            ;
        }
        if (data.len() as u64) == (width as u64) * (height as u64) {
            Some(GrayBuffer { width, height, data })
        } else {
            None
        }
    }
}

} // verus!
