//! Host functions for a WebAssembly runtime: value kinds, tagged values,
//! function signatures with their builder, the signature that a native
//! callable's argument and result types determine, and the checks that
//! surround a call into a host function.
pub mod value;
pub mod functype;
pub mod call;
pub mod func;
