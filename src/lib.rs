//! A small HTTPS API service: a landing page, a health check and a
//! Fibonacci endpoint. This library holds what the handlers decide and
//! compute; serving, TLS and serialisation stand around it.

pub mod config;
pub mod decimal;
pub mod fibonacci;
pub mod health;
pub mod page;
