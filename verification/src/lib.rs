//! The storage engine of a small key-value store: a contract for access to
//! named tables of key/value pairs, and an in-memory backend that keeps the
//! tables in nested concurrent maps.
//!
//! Every operation is stated over a mathematical model of the store (a map
//! from table names to maps from keys to values), and the laws that relate
//! the operations are proved over that model.

pub mod error;
pub mod storage;
pub mod value;

pub use error::KvError;
pub use storage::memory::MemTable;
pub use storage::Storage;

pub use value::{Kvpair, Value};
