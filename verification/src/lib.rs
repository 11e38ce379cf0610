//! A single-threaded bump (arena) allocator core.
//!
//! A [`BumpCar`] leases one contiguous buffer at construction and serves
//! allocations by monotonically advancing a cursor; memory is reclaimed all
//! at once by [`BumpCar::reset`].  This crate verifies the allocator engine
//! itself: the offset-bumping algorithm, the alignment arithmetic, the
//! shrink/deallocate adapter rules, and the nested checkpoint mechanism.
//! The raw buffer that the offsets index into is managed by the caller.

mod align;
mod arena;
mod laws;

pub use align::align_up;
pub use arena::AllocError;
pub use arena::ArenaModel;
pub use arena::BumpCar;
