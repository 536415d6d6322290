//! Core coordination logic for a live-rebuild-and-reload development server.
//!
//! The library turns a stream of classified filesystem change events into a
//! serialized, non-overlapping sequence of build invocations, and fans a
//! reload notice out to every listener registered before a successful build.

pub mod compiler;
pub mod config;
pub mod coordinator;
pub mod event;
pub mod hub;
pub mod serializer;
