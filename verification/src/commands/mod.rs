//! The commands of the tool, as far as they decide anything.

pub mod codegen;
pub mod init;
pub mod laws;
pub mod multitest;
pub mod tracksubmit;
