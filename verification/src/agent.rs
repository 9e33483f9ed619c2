//! The supervisor of the agent.

pub mod init;
