//! Native shell logic for the Slowburn desktop application.
//!
//! The shell launches a bundled Node.js server, polls its HTTP health
//! endpoint until it answers for the right application, points the window
//! at the server's address, and terminates the server on window close.
//! This crate holds the decisions and the text that the shell computes:
//! which binary and script to launch, with which environment, on which
//! port, the health request and the test of its response, and the polling
//! state machine. The process, socket and window plumbing around these
//! decisions lives outside the crate.

pub mod health;

pub mod launch;

pub mod supervise;

pub mod text;
