//! Dispatch logic of the `legendary` command-line front-end.
//!
//! The library decides, for each subcommand, which external tools run, in
//! which order, and what is printed around them. It performs no I/O itself:
//! a [`session::Session`] hands out [`session::Action`]s (lines to print and
//! one request: run a tool, read a file, or finish) and is told what came of
//! each request.
pub mod laws;
pub mod output;
pub mod plan;
pub mod session;
pub mod tool;
