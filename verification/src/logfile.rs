//! The log files: one per run of the input method, cut into generations, and cleared away
//! when all together have grown too large.

pub mod cleanup;
pub mod names;
pub mod rotation;
