//! The authenticated messaging client and the actor round it.

pub mod handler;
pub mod service;
