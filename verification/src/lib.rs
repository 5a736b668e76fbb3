//! Decisions of a TLS certificate reloader, and a model of the configuration cell that
//! it writes.
//!
//! The reloader sleeps for a fixed interval, has the certificate and key files loaded,
//! and installs the new material in a cell shared with the listener. Sleeping and
//! loading are the caller's work: [`reloader::Reloader::step`] takes what happened and
//! says what to do next.

pub mod config;
pub mod failure;
pub mod reloader;
pub mod startup;
pub mod trace;
