//! A fixed-capacity bipartite circular buffer.
//!
//! The buffer tracks a flat array of `size` element slots through three
//! region descriptors: the primary committed region `A`, a secondary
//! committed region `B` that always starts at offset 0, and the single
//! outstanding write reservation.  Producers obtain a contiguous writable
//! window with `reserve`, confirm written elements with `commit`, and
//! consumers read the oldest contiguous run given by `get_block` and retire
//! it with `decommit_block`.  All addressing is by offset into the caller's
//! storage: the core never copies or moves element data.

pub mod buffer;
pub mod laws;

pub use buffer::BipBuffer;
pub use buffer::Error;
