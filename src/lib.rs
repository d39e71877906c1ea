//! Safety layer between a single-threaded host runtime and an embedded
//! storage engine: value marshalling, error classification, transaction
//! session sequencing and the command protocol, all stated and proved.
//!
//! The engine itself and the worker threads that run it are outside this
//! crate; what is here are the decisions taken around every engine call.

pub mod error;
pub mod command;
pub mod value;
pub mod codec;
pub mod session;
pub mod request;
pub mod reply;
pub mod options;
