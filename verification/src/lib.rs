//! Build-tool library for gxi projects: normalisation of the project's
//! Cargo manifest, the command-line model, and the decisions that drive the
//! desktop and web build pipelines and the development web server.
pub mod cli;
pub mod pipelines;
pub mod utils;
