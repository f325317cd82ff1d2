//! A reservation-and-commit memory arena.
//!
//! One contiguous range of virtual address space is reserved once and then
//! backed by physical memory ("committed") step by step, as a monotonically
//! advancing cursor hands out aligned sub-allocations.  All bookkeeping —
//! the alignment and overflow arithmetic, the cursor and the commit boundary —
//! is verified here; the platform's reserve and commit calls themselves are
//! performed by the embedding program, which reports their outcomes back to
//! the arena.

pub mod align;
pub mod arena;
pub mod prng;
