//! The decisions of the Rikkahub PC shell.
//!
//! The shell starts a server as a sidecar process and shows its page in a window. This library
//! holds what the shell decides and computes; the program around it talks to the system. Where the
//! two alternate, a function takes what has happened as an event and returns what is to be done
//! next as a step.

pub mod config;
pub mod data_dir;
pub mod error;
pub mod installer;
pub mod job;
pub mod json;
pub mod path;
pub mod readiness;
pub mod sidecar;
pub mod startup;
pub mod text;
