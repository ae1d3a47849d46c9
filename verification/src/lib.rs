//! A safety layer between application buffers and a native, handle-based
//! inference and training engine.
//!
//! The engine is reached through a table of entry points, each of which takes
//! raw arguments and hands back a status and, for some, an out-pointer. This
//! library decides everything around those calls: which shapes are accepted,
//! which entry point a buffer goes to and with which arguments, who keeps the
//! backing memory alive, how a status or a null result becomes an error, and
//! what has to be released afterwards. The calls themselves are made by the
//! caller, who passes in what the engine answered.

pub mod array;
pub mod create;
pub mod error;
pub mod memory;
pub mod native;
pub mod shape;
pub mod strings;
pub mod tensor;
pub mod training;
pub mod value;
