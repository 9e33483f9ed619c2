//! Provisioning: how the machine gains its identity and gives it up.

pub mod crypto;
pub mod service;
