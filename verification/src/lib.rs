//! Kernel build configuration and the build pipeline of the VinMod kernel
//! builder, with their contracts.

pub mod builder;
pub mod commands;
pub mod form;
pub mod infra;
pub mod paths;
pub mod program;
pub mod properties;
pub mod run;
pub mod scripts;
pub mod service;
pub mod text;

