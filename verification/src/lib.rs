//! Configuration, lifecycle and HTTP-surface logic of the flags-2-env API
//! server, with the decisions that drive a server run.

pub mod config;
pub mod lifecycle;
pub mod surface;
pub mod run;
