//! Numeric kernels over flat buffers of binary64 values.
//!
//! Values are carried as their IEEE-754 bit patterns (`u64`), so that the
//! decisions the kernels make about them (which values are finite, which
//! pairs take part in an average, how long a result is) are stated and proved
//! over plain integers.

mod float_bits;
mod kernel;

pub use float_bits::{
    exponent_field, is_finite, is_finite_bits, is_zero, is_zero_bits, EXPONENT_ALL_ONES,
    MAGNITUDE_MASK,
};
pub use kernel::{counted_indices, lemma_selection_exact, map_elements, pair_counts, vwap_selection};
