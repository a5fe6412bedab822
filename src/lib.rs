//! A supervisor for a fixed set of named commands: the decisions it takes are
//! verified here, while the process plumbing lives in the application around it.

pub mod cfg;
pub mod log;
pub mod proc;
pub mod sig;
pub mod supervisor;
