//! Grammar-constrained random program-element generation and the
//! invocation plans used to feed the generated probes to toolchain
//! front-ends.

pub mod function;
pub mod generator;
pub mod incremental;
pub mod invocation;
pub mod random;
pub mod text;
pub mod ty;
