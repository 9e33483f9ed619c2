//! The identity of the machine, as it lies in the data directory.

pub mod handler;
pub mod service;
