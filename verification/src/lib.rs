//! Translates the argument list of a `wasm-opt` command line into a typed
//! invocation plan, reporting every argument it does not understand.

pub mod arg;
pub mod laws;
pub mod options;
pub mod plan;
pub mod profiles;
pub mod scan;
pub mod text;
