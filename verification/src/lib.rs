//! A safety boundary for a managed application runtime.
//!
//! A long-lived runtime instance is exposed to foreign callers through a flat
//! function surface: construct an instance from an application descriptor and
//! a storage location, start and stop its background execution, and invoke a
//! named capability on it, with every argument and result crossing the
//! boundary as plain null-terminated text.
//!
//! This crate holds the verified part of that boundary: the decisions that
//! must be safe under a caller that can pass null or malformed input, the
//! marshaling of text across the boundary, and the assembly of the runtime's
//! execution context from a single base directory. The runtime itself, the
//! storage engines and the transport are collaborators the host process
//! supplies; the library tells the host what to do and accounts for every
//! outcome the host can report back.

pub mod boundary;
pub mod context;
pub mod text;
