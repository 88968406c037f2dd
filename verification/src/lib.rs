//! Synthetic log generation and a four-function calculator model, with
//! machine-checked contracts.

pub mod calculator;
pub mod config;
pub mod generator;
pub mod line;
pub mod source;
pub mod strings;
pub mod text;
