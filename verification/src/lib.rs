//! A declarative task runner's core: it decides how named missions, each a
//! script run inside a container, are turned into invocations of the container
//! runtime, and how their results add up to the outcome of a run.
//!
//! The library starts no process and touches no file. It computes the command
//! lines that a host program hands to the runtime, and judges what the host
//! reports back.

pub mod command;
pub mod container;
mod host;
pub mod model;
pub mod plan;
pub mod run;
pub mod text;
