//! The basic backends: a file-system backend that stores each table in one file through a
//! transcoder, and the memory backend.
pub mod fs;
pub mod memory;
