//! Validation and synthesis of emulator session scripts.
//!
//! The crate models one emulation session: environment-variable substitution,
//! validated configuration fields, classification of platform-description
//! inputs, assembly of a validated session definition, and rendering of the
//! final script text. Everything here is pure: the process environment and
//! the file system are handed in as explicit values, and the rendered script
//! and the files to materialize are handed back as values.

pub mod config;
pub mod envsub;
pub mod fsview;
pub mod platform;
pub mod resc_gen;
pub mod text;
pub mod types;
