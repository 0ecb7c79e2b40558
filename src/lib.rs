//! Structured-event logging: each accepted call becomes one newline-terminated
//! JSON object in the line-oriented Bunyan shape.

pub mod laws;
pub mod level;
pub mod logger;
pub mod record;
pub mod wire;

pub use level::{is_enabled, Level};
pub use logger::JsonLogger;
pub use record::{EncodedRecord, Record, SerializableRecord, Src};
