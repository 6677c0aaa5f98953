//! Resource handling and kernel dispatch for a GPU backend of a lattice-based
//! homomorphic encryption scheme.
//!
//! The library decides every native call that the backend has to make: which
//! buffer goes in which argument position, how many bytes move, which
//! parameters reach a kernel and in which order the calls of a multi-phase
//! kernel come. The program around the library performs those calls.
pub mod params;
pub mod device;
pub mod native;
pub mod memory;
pub mod stream;
pub mod kernels;
pub mod arith;
pub mod model;
pub mod compressed;
pub mod lists;
