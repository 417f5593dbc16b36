//! Exchange of a refresh credential for a long-duration token, as a library
//! without I/O: every decision of the exchange is a function here, and the
//! program around it reads the environment, talks to the server and writes
//! the file.

pub mod config;
pub mod error;
pub mod headers;
pub mod laws;
pub mod output;
pub mod request;
pub mod response;
pub mod unit;
pub mod wire;
pub mod workflow;
