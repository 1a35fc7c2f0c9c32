//! Core of a live audio visualisation pipeline.
//!
//! Raw hardware samples arrive in one of several fixed-width encodings;
//! `capture` decides which encodings are accepted and how the capture source
//! moves through its life cycle, and the `sample` module converts each
//! reading into a canonical fixed-point amplitude.  Whole blocks of
//! normalized samples travel from the capture side to the rendering side
//! through the bounded FIFO of `relay`, the consumer keeps only the most
//! recent block (`state`), and `render` maps that block to exact bar
//! geometry for a bar-style amplitude plot.  `util` holds the scoped
//! release guard that frees the capture thread at teardown.
//!
//! All amplitude arithmetic is carried out over exact rationals: an amplitude
//! is an integer numerator over the fixed scale `sample::AMP_ONE`, and the
//! renderer reports every coordinate as a numerator/denominator pair.  The
//! host shell that owns the audio device and the window converts these exact
//! values to its own floating-point coordinates at the drawing boundary.

pub mod capture;
pub mod relay;
pub mod render;
pub mod sample;
pub mod state;
pub mod util;
