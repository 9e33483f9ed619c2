//! The application-service gateway.

pub mod handler;
pub mod service;
