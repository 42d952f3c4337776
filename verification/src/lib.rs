//! Core of a compile-time stylesheet pipeline: profile-based settings
//! resolution with an initialize-once store, browser-target encoding,
//! load-path canonicalization, class-name scoping maps with an exclude
//! list, dependency reporting, and the data handed to code generation.

pub mod browser;
pub mod codegen;
pub mod compile;
pub mod engine;
pub mod paths;
pub mod settings;
