//! The commands of the command line.

pub mod cmd;
