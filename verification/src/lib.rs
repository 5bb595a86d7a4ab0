//! WebAssembly hosting and guest logic: the computations that guest modules
//! perform, how a host passes text to a guest and reads its answer, a guest's
//! linear memory, a small JSON HTTP service, and the read loop of a serverless
//! simulator.
use vstd::prelude::*;

pub mod abi;
pub mod faas;
pub mod fib;
pub mod guests;
pub mod host;
pub mod memory;
pub mod service;
pub mod text;
pub mod wasm;
