//! The decision engine: a bounded bias value and two scaled moving averages.

use vstd::prelude::*;

use crate::policy::INITIAL_COMPRESSION_VALUE;
use crate::policy::SKIP_COMPRESSION_BLOCK_WEIGHT;
use crate::policy::compression_value_in_bounds;
use crate::policy::is_poor_compression;
use crate::policy::next_average;
use crate::policy::next_compression_value;
use crate::policy::poor_compression;
use crate::policy::skip_eligible;
use crate::policy::skip_threshold;
use crate::policy::smoothed_average;
use crate::policy::step_compression_value;

verus! {

/// An adaptive compression decision engine.
///
/// The engine holds a signed bias value that drives the compress-or-skip
/// decision, and scaled moving averages of the compressed and uncompressed
/// sizes reported to it. A fresh engine always recommends compressing; a run
/// of poorly compressing blocks drives the bias value up until the engine
/// starts skipping blocks of familiar size, and every skip nudges the value
/// back down so that compression is periodically re-validated.
#[derive(Debug)]
pub struct MVCompression {
    /// Current bias value. Positive values enable the skip gate.
    compression_value: i32,
    /// Scaled moving average of reported compressed block sizes.
    compressed_size_moving_average: usize,
    /// Scaled moving average of reported uncompressed block sizes.
    uncompressed_size_moving_average: usize,
}

impl MVCompression {
    /// Every engine ever constructed keeps its bias value inside the
    /// reachable range.
    #[verifier::type_invariant]
    spec fn bounds_invariant(self) -> bool {
        compression_value_in_bounds(self.compression_value as int)
    }

    /// The current bias value.
    pub closed spec fn value(self) -> int {
        self.compression_value as int
    }

    /// The stored (scaled) moving average of compressed block sizes.
    pub closed spec fn compressed_average(self) -> int {
        self.compressed_size_moving_average as int
    }

    /// The stored (scaled) moving average of uncompressed block sizes.
    pub closed spec fn uncompressed_average(self) -> int {
        self.uncompressed_size_moving_average as int
    }

    /// Creates a new engine biased toward compressing, with empty size
    /// history.
    pub fn new() -> (mvc: Self)
        ensures
            mvc.value() == INITIAL_COMPRESSION_VALUE,
            mvc.compressed_average() == 0,
            mvc.uncompressed_average() == 0,
    {
        MVCompression {
            compression_value: INITIAL_COMPRESSION_VALUE,
            compressed_size_moving_average: 0,
            uncompressed_size_moving_average: 0,
        }
    }

    /// Whether the engine skips a block of the given size in this state: the
    /// bias value is positive and the size does not exceed 125% of the
    /// stored uncompressed-size average.
    pub open spec fn spec_should_skip(self, datasize: int) -> bool {
        self.value() > 0 && datasize <= skip_threshold(self.uncompressed_average())
    }

    /// The decision callers consult before compressing a block of `datasize`
    /// bytes.
    ///
    /// While the bias value is at or below zero the call always answers
    /// `false` and changes nothing. Once the value is positive, a block no
    /// larger than 125% of the stored uncompressed-size average is skipped,
    /// and each skip moves the value one step back toward the
    /// always-compress region; a larger block is not skipped and changes
    /// nothing. The averages are never touched here.
    pub fn should_skip_compression(&mut self, datasize: usize) -> (skip: bool)
        ensures
            skip == old(self).spec_should_skip(datasize as int),
            final(self).value() == if skip {
                old(self).value() + SKIP_COMPRESSION_BLOCK_WEIGHT
            } else {
                old(self).value()
            },
            final(self).compressed_average() == old(self).compressed_average(),
            final(self).uncompressed_average() == old(self).uncompressed_average(),
    {
        if self.compression_value > 0 {
            if skip_eligible(datasize, self.uncompressed_size_moving_average) {
                proof {
                    use_type_invariant(&*self);
                }
                self.compression_value = self.compression_value + SKIP_COMPRESSION_BLOCK_WEIGHT;
                return true;
            }
        }
        false
    }

    /// Folds one reported block into both moving averages; the bias value is
    /// left alone.
    fn update_compression_block_size(&mut self, compressed: usize, uncompressed: usize)
        ensures
            final(self).value() == old(self).value(),
            final(self).compressed_average() == smoothed_average(
                old(self).compressed_average(),
                compressed as int,
            ),
            final(self).uncompressed_average() == smoothed_average(
                old(self).uncompressed_average(),
                uncompressed as int,
            ),
    {
        proof {
            use_type_invariant(&*self);
        }
        self.compressed_size_moving_average = next_average(
            self.compressed_size_moving_average,
            compressed,
        );
        self.uncompressed_size_moving_average = next_average(
            self.uncompressed_size_moving_average,
            uncompressed,
        );
    }

    /// Feedback callers supply after actually compressing a block.
    ///
    /// Both moving averages take the reported sizes in through the smoothing
    /// rule, and the bias value takes one bounded step: up if the result
    /// counts as poor compression, down if it counts as good.
    pub fn update_compression_ratio(&mut self, compressed: usize, uncompressed: usize)
        ensures
            final(self).value() == next_compression_value(
                old(self).value(),
                poor_compression(compressed as int, uncompressed as int),
            ),
            final(self).compressed_average() == smoothed_average(
                old(self).compressed_average(),
                compressed as int,
            ),
            final(self).uncompressed_average() == smoothed_average(
                old(self).uncompressed_average(),
                uncompressed as int,
            ),
    {
        let poor = is_poor_compression(compressed, uncompressed);
        self.update_compression_block_size(compressed, uncompressed);
        proof {
            use_type_invariant(&*self);
        }
        self.compression_value = step_compression_value(self.compression_value, poor);
    }

    /// Returns the current bias value. The result always lies within the
    /// reachable range.
    pub fn get_compression_value(&self) -> (v: i32)
        ensures
            v == self.value(),
            compression_value_in_bounds(v as int),
    {
        proof {
            use_type_invariant(&*self);
        }
        self.compression_value
    }

    /// Returns the stored (scaled) moving average of compressed block sizes.
    pub fn get_compressed_average(&self) -> (avg: usize)
        ensures
            avg == self.compressed_average(),
    {
        self.compressed_size_moving_average
    }

    /// Returns the stored (scaled) moving average of uncompressed block
    /// sizes.
    pub fn get_uncompressed_average(&self) -> (avg: usize)
        ensures
            avg == self.uncompressed_average(),
    {
        self.uncompressed_size_moving_average
    }
}

impl Default for MVCompression {
    /// A default engine is a fresh one.
    fn default() -> (mvc: Self)
        ensures
            mvc.value() == INITIAL_COMPRESSION_VALUE,
            mvc.compressed_average() == 0,
            mvc.uncompressed_average() == 0,
    {
        MVCompression::new()
    }
}

} // verus!
