//! Core of a code-execution service: per-language toolchain plans, the
//! request orchestration state machine, and response synthesis.
//!
//! The host process (HTTP server, filesystem, child processes) performs the
//! effects; everything here decides what to do and what to answer, and is
//! verified. A session advances step by step: each step yields a directive
//! for the host, and the host reports the outcome back as an event.

pub mod java;
pub mod lang;
pub mod response;
pub mod session;
pub mod text;
pub mod timeout;
pub mod token;
