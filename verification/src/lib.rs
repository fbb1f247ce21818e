//! Adaptive compression decision engine.
//!
//! The engine learns from the historical effectiveness of compression and
//! decides, for each data block a caller is about to process, whether a
//! compression attempt is worthwhile. It keeps a bounded bias value together
//! with scaled moving averages of compressed and uncompressed block sizes,
//! and exposes a gate ([`MVCompression::should_skip_compression`]) and a
//! feedback operation ([`MVCompression::update_compression_ratio`]).
//!
//! The numeric policy itself (weights, bounds, the smoothing rule and the
//! ratio classification) lives in [`policy`], stated as specification
//! functions and proved of the executable transition functions there.

pub mod mvcompression;
pub mod policy;

pub use mvcompression::MVCompression;
