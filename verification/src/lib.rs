//! Escape-time fractal core.
//!
//! The library holds the verified logic of an escape-time renderer: the
//! iteration-counting state machine that bounds every orbit by the iteration
//! cap, the row-major pixel grid of raw counts, and the two-pass intensity
//! normalization that rescales counts into the range `[0, 256]`.
//!
//! Floating-point orbit arithmetic (complex squaring, magnitude tests) and the
//! image sink live outside the library; they feed plain integers and booleans
//! into the types here.

pub mod error;
pub mod escape;
pub mod grid;
pub mod normalize;

pub use error::FractalError;
pub use escape::EscapeCounter;
pub use grid::PixelGrid;
