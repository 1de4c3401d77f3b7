//! Host side of the scripting bridge between the engine and sandboxed
//! WebAssembly script modules: the shared binary layout of transform values,
//! bounds-checked marshaling of those values through guest linear memory, the
//! host functions offered to guest modules, captured guest output, the
//! lifecycle of a script context, and the error and input values shared with
//! the engine.

pub mod layout;
pub mod primitives;
pub mod guest_memory;
pub mod host_functions;
pub mod stdio;
pub mod script;
pub mod error;
pub mod input;
