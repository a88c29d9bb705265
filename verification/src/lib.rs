//! A verified front end for the `wasm-opt` WebAssembly optimizer.
//!
//! The optimizer itself is a native engine that owns every module it works
//! on. This library holds what a host decides before the engine is called and
//! after it has answered: how a reader, a writer, a set of options and a pass
//! runner are configured, which module each of them has exclusive access to,
//! what request results from them, in what order the queued passes run, how
//! the host's arguments become NUL-terminated strings, and which error an
//! answer of the engine stands for. Each of these is stated as a contract and
//! proved.
//!
//! Carrying a request out is left to the program that links the engine: it
//! makes the engine calls that the request stands for and hands the answer
//! back.

pub mod args;
pub mod error;
pub mod io;
pub mod lifecycle;
pub mod options;
pub mod runner;

pub use args::wasm_opt_main;
pub use error::Error;
pub use lifecycle::init;
