//! A memory based backend. Useful for debugging or applications who only need to store data
//! at runtime.
pub use crate::backend::memory::{MemoryBackend, MemoryError, MemoryErrorType};
