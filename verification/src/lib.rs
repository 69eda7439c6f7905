//! A harness that runs a suite of test programs: it loads the suite's
//! manifest, runs each case as a child process under a fixed environment,
//! classifies how each ended, and keeps logs and a summary of the run.
//!
//! The library decides; it touches neither files nor processes. A run is a
//! state machine ([`engine::Run`]) that turns each event from outside into
//! the next state and a list of effects for its caller to perform. What
//! holds of every run is proved in [`laws`].

pub mod build_step;
pub mod case;
pub mod clock;
pub mod components;
pub mod effect;
pub mod engine;
pub mod error;
pub mod laws;
pub mod layout;
pub mod manifest;
pub mod suite;
pub mod summary;
pub mod text;
