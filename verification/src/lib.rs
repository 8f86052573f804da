//! Aligned numeric buffers and chunked element-wise addition.
//!
//! The crate offers two parallel buffer families, one per alignment tier
//! (16-byte for the 128-bit vector width, 32-byte for the 256-bit width),
//! together with an addition kernel for each tier. A kernel consumes two
//! equal-length buffers and writes the element-wise wrapping sum into a
//! third, working through the bulk of the elements one whole vector chunk
//! at a time and finishing any leftover tail element by element.

pub mod buffer;
pub mod kernel;

pub use buffer::AlignedVec16;
pub use buffer::AlignedVec32;
pub use kernel::chunk_count;
pub use kernel::sum_with_simd_aligned;
pub use kernel::sum_with_simd_avx;
pub use kernel::tail_len;
