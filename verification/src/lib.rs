//! Thread-safe in-memory key-value store over byte-sequence keys and values.
//!
//! Nothing is persisted: the store lives exactly as long as the value that
//! owns it. Every operation of [`Memdb`] carries a contract over the store's
//! view, a mathematical map from keys to values.

pub mod error;
pub mod laws;
pub mod model;
pub mod store;
pub mod table;

pub use error::MyError;
pub use store::Memdb;
