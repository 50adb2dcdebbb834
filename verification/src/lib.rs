//! A minimal host/plugin execution boundary.
//!
//! A host loads a compiled WebAssembly module from bytes, instantiates it
//! inside a sandboxed virtual machine, resolves a typed exported function by
//! name, and invokes it with arguments, obtaining a typed result or a
//! classified failure. The guest side exposes a pure computation (`add`)
//! under a stable, typed ABI.

pub mod abi;
pub mod arith;
pub mod host;
pub mod text;
pub mod vm;
