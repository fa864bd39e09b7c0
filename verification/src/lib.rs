//! System-level building blocks: value types for vectors and time spans,
//! and seekable input streams over bytes held in memory or in a file.

pub mod system;
