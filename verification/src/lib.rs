//! Core of a modular runtime-security agent: per-process interest
//! propagation, kernel-shared table models, and the module runtime
//! (event bus, configuration reload, cooperative shutdown).

pub mod bus;
pub mod config;
pub mod context;
pub mod image;
pub mod interest;
pub mod logger;
pub mod monitor;
pub mod policy;
pub mod rules;
pub mod shutdown;
