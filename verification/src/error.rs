//! Errors of the render pipeline.

use vstd::prelude::*;

verus! {

/// A render either completes as a whole or fails with one of these.
///
/// `AllPixelsSaturated`: every pixel reached the iteration cap, so no maximal
/// escaped count exists and normalization has no scale to work with.
///
/// `SinkWriteFailure`: the image sink failed to persist the finished grid.
/// The sink runs outside the library; its driver maps a failed save to this
/// variant when reporting the render as a whole.
#[derive(Clone, Copy, Debug, PartialEq, Eq, Structural)]
pub enum FractalError {
    AllPixelsSaturated,
    SinkWriteFailure,
}

} // verus!
