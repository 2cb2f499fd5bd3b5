//! The backends that fetch and provide data.
pub mod binary;
pub mod cache;
pub mod calls;
pub mod serve;
pub mod fs;
pub mod json;
pub mod memory;
pub mod querystring;
pub mod ron;
pub mod toml;
pub mod yaml;

pub use self::binary::BincodeBackend;
pub use self::cache::{CacheBackend, CacheError};
pub use self::fs::{FsBackend, FsError, FsErrorType};
pub use self::json::{JsonBackend, JsonPrettyBackend};
pub use self::memory::{MemoryBackend, MemoryError, MemoryErrorType};
pub use self::querystring::QueryStringBackend;
pub use self::ron::{RonBackend, RonPrettyBackend};
pub use self::toml::{TomlBackend, TomlPrettyBackend};
pub use self::yaml::YamlBackend;
