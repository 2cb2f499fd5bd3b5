//! A simple database system that allows the use of multiple different backends.
pub mod accessor;
pub mod action;
pub mod backend;
pub mod backends;
pub mod database;
pub mod entry;
pub mod error;
pub mod foreign;
pub mod key_field;
pub mod runtime_action;
pub mod schema;
pub mod typed_action;
pub mod util;

pub use self::action::Action;
pub use self::entry::{Entry, IndexEntry, Key};
pub use self::error::Error;
pub use self::util::METADATA_KEY;
