//! Once: recognize an accepted realization of a fully resolved Nix derivation.
//!
//! The library holds the policy engine, the pure halves of the Nix adapter,
//! the configuration rules and the report rendering. Running Nix, reading
//! files and printing belong to the program around it.

pub mod text;
pub mod version;
pub mod types;
pub mod trace;
pub mod error;
pub mod config;
pub mod nix;
pub mod policy;
pub mod json;
pub mod backend;
pub mod views;
pub mod report;
pub mod cli;
pub mod laws;
