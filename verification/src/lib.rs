//! Circuit-file handling, wire preallocation and garbled-circuit label logic
//! for v5 boolean circuits.

pub mod format;
pub mod bits;
pub mod error;
pub mod eval;
pub mod labels;
pub mod prealloc;
pub mod service;
pub mod slab;
