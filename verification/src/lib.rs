//! A backend-agnostic GPU buffer abstraction.
//!
//! A [`buffer::Buffer`] is a typed, fixed-length handle to a contiguous region
//! of device memory. The handle performs every bounds and length check itself
//! and delegates the actual device work (allocation, element access, mapping,
//! destruction) to a pluggable backend capability, specified by the traits in
//! [`backend`]. The contracts on those traits are the interface a backend must
//! honour; the handle's own operations are verified against them.
//!
//! [`memory::MemoryBackend`] is a verified host-memory backend, useful for
//! tests and as a reference implementation of the capability contracts.

pub mod backend;
pub mod buffer;
pub mod laws;
pub mod memory;
pub mod text;
