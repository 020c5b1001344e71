//! Verified register/stack bookkeeping for a single-pass x86-64 code
//! generator: register pools, spill-slot accounting, calling-convention
//! parameter tables, and the function prologue/epilogue protocol.

pub mod emitter;
pub mod export;
pub mod location;
pub mod machine;
pub mod locvec;
pub mod regs;
